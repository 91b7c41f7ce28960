//! People who watch a game without playing in it.

pub mod spectator_pointer;
pub mod spectator_reference;

use vstd::prelude::*;
use super::chat::ChatMessageVariant;

verus! {

/// The state of a client's link to the server. The link itself (the socket
/// that packets go through) stays with the server around this library.
#[derive(Debug, Clone, Copy, PartialEq, Eq, Structural)]
pub enum ClientConnection {
    Connected,
    CouldReconnect,
    Disconnected,
}

#[derive(Debug, Clone, Copy)]
pub struct SpectatorInitializeParameters {
    pub connection: ClientConnection,
    pub host: bool,
}

#[derive(Debug)]
pub struct Spectator {
    pub connection: ClientConnection,
    pub fast_forward_vote: bool,
    /// Chat messages waiting to be sent to this spectator, oldest first.
    pub queued_chat_messages: Vec<ChatMessageVariant>,
}

impl Spectator {
    /// A spectator on the given connection, with no vote and nothing queued.
    pub fn new(params: SpectatorInitializeParameters) -> (r: Self)
        ensures
            r.connection == params.connection,
            !r.fast_forward_vote,
            r.queued_chat_messages@.len() == 0,
    {
        Spectator {
            connection: params.connection,
            fast_forward_vote: false,
            queued_chat_messages: Vec::new(),
        }
    }
}

} // verus!

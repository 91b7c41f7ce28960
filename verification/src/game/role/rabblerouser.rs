//! The rabblerouser: holds a pitchfork while it holds the role.

use vstd::prelude::*;
use crate::game::player::PlayerReference;
use crate::game::effect::Effect;

verus! {

#[derive(Clone, Copy, Debug, Default)]
pub struct Rabblerouser;

impl Rabblerouser {
    /// The new rabblerouser gets a pitchfork.
    pub fn on_role_creation(&self, actor_ref: PlayerReference) -> (r: Vec<Effect>)
        ensures
            r@ == seq![Effect::AddPitchfork { player: actor_ref }],
    {
        vec![Effect::AddPitchfork { player: actor_ref }]
    }

    /// A rabblerouser that switches role gives its pitchfork up.
    pub fn before_role_switch(&self, actor_ref: PlayerReference, player: PlayerReference) -> (r: Vec<Effect>)
        ensures
            player == actor_ref ==> r@ == seq![Effect::RemovePitchfork { player: actor_ref }],
            player != actor_ref ==> r@.len() == 0,
    {
        if player == actor_ref {
            vec![Effect::RemovePitchfork { player: actor_ref }]
        } else {
            Vec::new()
        }
    }
}

} // verus!

//! Spectators of a game, named by position, and what is sent to them.

use vstd::prelude::*;
use super::{ClientConnection, Spectator};
use crate::game::Game;
use crate::game::chat::{ChatMessageVariant, same_message};

verus! {

pub type SpectatorIndex = u8;

/// Chat messages go to a spectator in packets of at most this many.
pub const CHAT_CHUNK: usize = 5;

/// A spectator of the game, named by index; it need not exist.
#[derive(Debug, Clone, Copy, PartialEq, Eq, Structural)]
pub struct SpectatorPointer {
    pub index: SpectatorIndex,
}

/// `whole` cut into consecutive packets of `CHAT_CHUNK` messages, the last
/// one possibly shorter and none empty.
pub open spec fn chunks_of<T>(whole: Seq<T>) -> Seq<Seq<T>>
    decreases whole.len(),
{
    if whole.len() == 0 {
        Seq::empty()
    } else if whole.len() <= CHAT_CHUNK {
        seq![whole]
    } else {
        seq![whole.take(CHAT_CHUNK as int)] + chunks_of(whole.skip(CHAT_CHUNK as int))
    }
}

/// Sending a queue in packets loses, repeats and reorders nothing: the
/// packets, read one after another, give back the queue, and each packet
/// holds at least one and at most `CHAT_CHUNK` messages.
pub proof fn lemma_chunks_of<T>(whole: Seq<T>)
    ensures
        chunks_of(whole).flatten() == whole,
        forall|i: int| 0 <= i < chunks_of(whole).len() ==> 0 < #[trigger] chunks_of(whole)[i].len() <= CHAT_CHUNK,
    decreases whole.len(),
{
    let c = chunks_of(whole);
    if whole.len() == 0 {
    } else if whole.len() <= CHAT_CHUNK {
        assert(c.drop_first() =~= Seq::<Seq<T>>::empty());
        assert(c.drop_first().flatten() =~= Seq::<T>::empty());
        assert(c.flatten() =~= whole);
    } else {
        let rest = whole.skip(CHAT_CHUNK as int);
        lemma_chunks_of(rest);
        assert(c.first() == whole.take(CHAT_CHUNK as int));
        assert(c.drop_first() =~= chunks_of(rest));
        assert(whole.take(CHAT_CHUNK as int) + rest =~= whole);
        assert forall|i: int| 0 <= i < c.len() implies 0 < #[trigger] c[i].len() <= CHAT_CHUNK by {
            if i > 0 {
                assert(c[i] == chunks_of(rest)[i - 1]);
            }
        }
    }
}

/// Whether the game has spectator `index` and it is connected.
pub open spec fn spectator_connected(game: Game, index: SpectatorIndex) -> bool {
    (index as int) < game.spectators@.len() && game.spectators@[index as int].connection == ClientConnection::Connected
}

/// What sending spectator `index` its queued chat does: the packets are its
/// queue cut as `chunks_of` cuts it, its queue is then empty, and nothing
/// else changes. A missing spectator gets nothing.
pub open spec fn chat_sent(before: Game, after: Game, index: SpectatorIndex, packets: Seq<Vec<ChatMessageVariant>>) -> bool {
    &&& after == (Game { spectators: after.spectators, ..before })
    &&& after.spectators@.len() == before.spectators@.len()
    &&& forall|i: int|
        0 <= i < before.spectators@.len() && i != index ==> #[trigger] after.spectators@[i] == before.spectators@[i]
    &&& (index as int) < before.spectators@.len() ==> {
        let s = before.spectators@[index as int];
        let t = after.spectators@[index as int];
        &&& t.connection == s.connection
        &&& t.fast_forward_vote == s.fast_forward_vote
        &&& t.queued_chat_messages@.len() == 0
        &&& packets_view(packets) == chunks_of(s.queued_chat_messages@)
    }
    &&& (index as int) >= before.spectators@.len() ==> packets.len() == 0 && after.spectators@ == before.spectators@
}

/// The messages of each packet.
pub open spec fn packets_view(v: Seq<Vec<ChatMessageVariant>>) -> Seq<Seq<ChatMessageVariant>> {
    v.map_values(|p: Vec<ChatMessageVariant>| p@)
}

impl SpectatorPointer {
    pub fn new(index: SpectatorIndex) -> (r: Self)
        ensures
            r.index == index,
    {
        SpectatorPointer { index }
    }

    pub fn index(&self) -> (r: SpectatorIndex)
        ensures
            r == self.index,
    {
        self.index
    }

    /// The spectator, when the game has one at this index.
    pub fn deref<'a>(&self, game: &'a Game) -> (r: Option<&'a Spectator>)
        ensures
            (self.index as int) < game.spectators@.len() ==> r == Some(
                &game.spectators@[self.index as int],
            ),
            (self.index as int) >= game.spectators@.len() ==> r is None,
    {
        if (self.index as usize) < game.spectators.len() {
            Some(&game.spectators[self.index as usize])
        } else {
            None
        }
    }

    /// The spectator's connection; a missing spectator counts as disconnected.
    pub fn connection(&self, game: &Game) -> (r: ClientConnection)
        ensures
            r == if (self.index as int) < game.spectators@.len() {
                game.spectators@[self.index as int].connection
            } else {
                ClientConnection::Disconnected
            },
    {
        match self.deref(game) {
            Some(s) => s.connection,
            None => ClientConnection::Disconnected,
        }
    }

    pub fn is_connected(&self, game: &Game) -> (r: bool)
        ensures
            r == ((self.index as int) < game.spectators@.len()
                && game.spectators@[self.index as int].connection == ClientConnection::Connected),
    {
        self.connection(game) == ClientConnection::Connected
    }

    /// The spectators of the game, from the first; more than an index can name
    /// are cut at the largest index.
    pub fn all_spectators(game: &Game) -> (r: SpectatorPointerIterator)
        ensures
            r.current == 0,
            r.end as int == if game.spectators@.len() <= 255 {
                game.spectators@.len() as int
            } else {
                255
            },
    {
        let len = game.spectators.len();
        let end: u8 = if len <= 255 {
            len as u8
        } else {
            255
        };
        SpectatorPointerIterator { current: 0, end }
    }

    /// A tick sends a connected spectator its queued chat, as
    /// `send_chat_messages` does; anyone else is left as they are.
    pub fn tick(&self, game: &mut Game) -> (r: Vec<Vec<ChatMessageVariant>>)
        ensures
            spectator_connected(*old(game), self.index) ==> chat_sent(*old(game), *final(game), self.index, r@),
            !spectator_connected(*old(game), self.index) ==> r@.len() == 0 && *final(game) == *old(game),
    {
        if self.is_connected(game) {
            self.send_repeating_data(game)
        } else {
            Vec::new()
        }
    }

    /// What a spectator is sent on every tick: its queued chat, as
    /// `send_chat_messages` sends it.
    pub fn send_repeating_data(&self, game: &mut Game) -> (r: Vec<Vec<ChatMessageVariant>>)
        ensures
            chat_sent(*old(game), *final(game), self.index, r@),
    {
        self.send_chat_messages(game)
    }

    /// The spectator, to change, when the game has one at this index.
    pub fn deref_mut<'a>(&self, game: &'a mut Game) -> (r: Option<&'a mut Spectator>)
        ensures
            (self.index as int) >= old(game).spectators@.len() ==> r is None && *final(game) == *old(game),
            (self.index as int) < old(game).spectators@.len() ==> match r {
                Some(s) => *s == old(game).spectators@[self.index as int] && *final(game) == (Game {
                    spectators: final(game).spectators,
                    ..*old(game)
                }) && final(game).spectators@ == old(game).spectators@.update(self.index as int, *final(s)),
                None => false,
            },
    {
        if (self.index as usize) < game.spectators.len() {
            Some(&mut game.spectators[self.index as usize])
        } else {
            None
        }
    }

    /// Queues every chat message spectators have seen so far again, behind
    /// what this spectator has queued, each saying the same as the one it
    /// copies; nothing happens for a missing spectator.
    pub fn requeue_chat_messages(&self, game: &mut Game)
        ensures
            *final(game) == (Game { spectators: final(game).spectators, ..*old(game) }),
            final(game).spectators@.len() == old(game).spectators@.len(),
            forall|i: int|
                0 <= i < old(game).spectators@.len() && i != self.index ==> #[trigger] final(game).spectators@[i] == old(game).spectators@[i],
            (self.index as int) < old(game).spectators@.len() ==> {
                let before = old(game).spectators@[self.index as int];
                let after = final(game).spectators@[self.index as int];
                &&& after.connection == before.connection
                &&& after.fast_forward_vote == before.fast_forward_vote
                &&& after.queued_chat_messages@.len() == before.queued_chat_messages@.len()
                    + old(game).spectator_chat_messages@.len()
                &&& forall|j: int|
                    0 <= j < before.queued_chat_messages@.len() ==> #[trigger] after.queued_chat_messages@[j]
                        == before.queued_chat_messages@[j]
                &&& forall|j: int|
                    0 <= j < old(game).spectator_chat_messages@.len() ==> same_message(
                        #[trigger] after.queued_chat_messages@[before.queued_chat_messages@.len() + j],
                        old(game).spectator_chat_messages@[j],
                    )
            },
            (self.index as int) >= old(game).spectators@.len() ==> final(game).spectators@
                == old(game).spectators@,
    {
        let idx = self.index as usize;
        if idx >= game.spectators.len() {
            return;
        }
        let mut s = game.spectators.remove(idx);
        let ghost before = s;
        let mut j: usize = 0;
        while j < game.spectator_chat_messages.len()
            invariant
                j <= game.spectator_chat_messages@.len(),
                s.connection == before.connection,
                s.fast_forward_vote == before.fast_forward_vote,
                s.queued_chat_messages@.len() == before.queued_chat_messages@.len() + j,
                forall|k: int|
                    0 <= k < before.queued_chat_messages@.len() ==> #[trigger] s.queued_chat_messages@[k]
                        == before.queued_chat_messages@[k],
                forall|k: int|
                    0 <= k < j ==> same_message(
                        #[trigger] s.queued_chat_messages@[before.queued_chat_messages@.len() + k],
                        game.spectator_chat_messages@[k],
                    ),
            decreases game.spectator_chat_messages@.len() - j,
        {
            let m = game.spectator_chat_messages[j].duplicate();
            s.queued_chat_messages.push(m);
            j = j + 1;
        }
        game.spectators.insert(idx, s);
    }

    /// Takes everything queued for this spectator, cut into the packets that
    /// are sent to it in turn; the queue is then empty. Nothing is taken from
    /// a missing spectator.
    pub fn send_chat_messages(&self, game: &mut Game) -> (r: Vec<Vec<ChatMessageVariant>>)
        ensures
            chat_sent(*old(game), *final(game), self.index, r@),
    {
        let idx = self.index as usize;
        if idx >= game.spectators.len() {
            return Vec::new();
        }
        let mut s = game.spectators.remove(idx);
        let ghost before = s;
        let mut out: Vec<Vec<ChatMessageVariant>> = Vec::new();
        while s.queued_chat_messages.len() > 0
            invariant
                s.connection == before.connection,
                s.fast_forward_vote == before.fast_forward_vote,
                packets_view(out@) + chunks_of(s.queued_chat_messages@) == chunks_of(
                    before.queued_chat_messages@,
                ),
            decreases s.queued_chat_messages@.len(),
        {
            let ghost queue = s.queued_chat_messages@;
            let mut chunk: Vec<ChatMessageVariant> = Vec::new();
            let mut k: usize = 0;
            while k < CHAT_CHUNK && s.queued_chat_messages.len() > 0
                invariant
                    k <= CHAT_CHUNK,
                    k <= queue.len(),
                    chunk@ == queue.take(k as int),
                    s.queued_chat_messages@ == queue.skip(k as int),
                    s.connection == before.connection,
                    s.fast_forward_vote == before.fast_forward_vote,
                decreases CHAT_CHUNK - k,
            {
                let m = s.queued_chat_messages.remove(0);
                chunk.push(m);
                k = k + 1;
                proof {
                    assert(chunk@ =~= queue.take(k as int));
                    assert(s.queued_chat_messages@ =~= queue.skip(k as int));
                }
            }
            proof {
                if queue.len() <= CHAT_CHUNK {
                    assert(k == queue.len());
                    assert(chunk@ =~= queue);
                    assert(chunks_of(s.queued_chat_messages@) =~= Seq::<Seq<ChatMessageVariant>>::empty());
                } else {
                    assert(k == CHAT_CHUNK);
                }
                assert(chunks_of(queue) =~= seq![chunk@] + chunks_of(s.queued_chat_messages@));
            }
            let ghost old_out = out@;
            out.push(chunk);
            proof {
                assert(packets_view(out@) =~= packets_view(old_out).push(out@.last()@));
                assert(packets_view(out@) + chunks_of(s.queued_chat_messages@) =~= packets_view(old_out)
                    + chunks_of(queue));
            }
        }
        proof {
            assert(chunks_of(s.queued_chat_messages@) =~= Seq::<Seq<ChatMessageVariant>>::empty());
            assert(packets_view(out@) + Seq::<Seq<ChatMessageVariant>>::empty() =~= packets_view(out@));
        }
        game.spectators.insert(idx, s);
        out
    }
}

/// Walks the spectators from `current` up to (not including) `end`.
#[derive(Debug)]
pub struct SpectatorPointerIterator {
    pub current: u8,
    pub end: u8,
}

impl SpectatorPointerIterator {
    /// The next spectator, or `None` once `end` is reached.
    pub fn next(&mut self) -> (r: Option<SpectatorPointer>)
        ensures
            old(self).current >= old(self).end ==> r is None && *final(self) == *old(self),
            old(self).current < old(self).end ==> r == Some(
                SpectatorPointer { index: old(self).current },
            ) && final(self).current == old(self).current + 1 && final(self).end == old(self).end,
    {
        if self.current >= self.end {
            None
        } else {
            let ret = SpectatorPointer::new(self.current);
            self.current = self.current + 1;
            Some(ret)
        }
    }

    /// How many spectators are left, as a lower and an upper bound.
    pub fn size_hint(&self) -> (r: (usize, Option<usize>))
        ensures
            r.0 == (if self.end >= self.current { self.end - self.current } else { 0 }),
            r.1 == Some(r.0),
    {
        let size: usize = if self.end >= self.current {
            (self.end - self.current) as usize
        } else {
            0
        };
        (size, Some(size))
    }
}

} // verus!

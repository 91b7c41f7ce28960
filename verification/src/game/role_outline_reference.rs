//! References to the outlines of a game's role list.

use vstd::prelude::*;
use super::Game;
use super::player::PlayerReference;
use super::role::Role;
use super::role_list::{RoleAssignment, RoleOutline};

verus! {

pub type OutlineIndex = u8;

/// An outline of the game's role list, named by its position.
#[derive(Debug, Clone, Copy, PartialEq, Eq, Structural, Hash)]
pub struct RoleOutlineReference {
    index: OutlineIndex,
}

/// The role an outline first generated, and the player who got it.
pub type OriginallyGeneratedRoleAndPlayer = (Role, PlayerReference);

impl RoleOutlineReference {
    pub closed spec fn spec_index(self) -> OutlineIndex {
        self.index
    }

    /// The reference to outline `index`, when the role list has that many.
    pub fn new(game: &Game, index: OutlineIndex) -> (r: Option<RoleOutlineReference>)
        ensures
            r is Some <==> (index as int) < game.settings.role_list.0@.len(),
            r is Some ==> r->0.spec_index() == index,
    {
        if (index as usize) >= game.settings.role_list.0.len() {
            return None;
        }
        Some(RoleOutlineReference { index })
    }

    /// The reference to outline `index`, whether or not the role list has that
    /// many; whoever reads through it must know that it does.
    pub fn new_unchecked(index: OutlineIndex) -> (r: RoleOutlineReference)
        ensures
            r.spec_index() == index,
    {
        RoleOutlineReference { index }
    }

    pub fn index(&self) -> (r: OutlineIndex)
        ensures
            r == self.spec_index(),
    {
        self.index
    }

    /// The outline this reference names.
    pub fn deref<'a>(&self, game: &'a Game) -> (r: &'a RoleOutline)
        requires
            (self.spec_index() as int) < game.settings.role_list.0@.len(),
        ensures
            *r == game.settings.role_list.0@[self.spec_index() as int],
    {
        &game.settings.role_list.0[self.index as usize]
    }

    /// The assignments this outline could generate when the game began.
    pub fn possible_assignments<'a>(&self, game: &'a Game) -> (r: &'a Vec<RoleAssignment>)
        requires
            (self.spec_index() as int) < game.role_assignment_gen@.len(),
        ensures
            *r == game.role_assignment_gen@[self.spec_index() as int],
    {
        &game.role_assignment_gen[self.index as usize]
    }

    /// The role this outline generated and the player who got it: the first
    /// assignment of the game that names this outline.
    pub fn deref_as_role_and_player_originally_generated(&self, game: &Game) -> (r:
        OriginallyGeneratedRoleAndPlayer)
        requires
            exists|i: int|
                0 <= i < game.assignments@.len() && (#[trigger] game.assignments@[i]).1 == *self,
        ensures
            exists|i: int|
                0 <= i < game.assignments@.len() && (#[trigger] game.assignments@[i]).1 == *self
                    && r == (game.assignments@[i].2.role, game.assignments@[i].0) && forall|j: int|
                    0 <= j < i ==> game.assignments@[j].1 != *self,
    {
        let mut i: usize = 0;
        while i < game.assignments.len()
            invariant
                i <= game.assignments@.len(),
                forall|j: int| 0 <= j < i ==> game.assignments@[j].1 != *self,
                exists|k: int|
                    0 <= k < game.assignments@.len() && (#[trigger] game.assignments@[k]).1
                        == *self,
            decreases game.assignments@.len() - i,
        {
            if game.assignments[i].1.index == self.index {
                assert(game.assignments@[i as int].1 == *self);
                return (game.assignments[i].2.role, game.assignments[i].0);
            }
            i = i + 1;
        }
        let ghost k = choose|k: int|
            0 <= k < game.assignments@.len() && (#[trigger] game.assignments@[k]).1 == *self;
        assert(game.assignments@[k].1 != *self);
        (Role::Villager, PlayerReference { index: 0 })
    }

    /// The outlines of the game's role list, from the first; a list longer
    /// than an outline index can name is cut at the largest index.
    pub fn all_outlines(game: &Game) -> (r: RoleOutlineReferenceIterator)
        ensures
            r.current == 0,
            r.end as int == if game.settings.role_list.0@.len() <= 255 {
                game.settings.role_list.0@.len() as int
            } else {
                255
            },
    {
        let len = game.settings.role_list.0.len();
        let end: u8 = if len <= 255 {
            len as u8
        } else {
            255
        };
        RoleOutlineReferenceIterator { current: 0, end }
    }
}

/// Walks the outlines from `current` up to (not including) `end`.
#[derive(Debug)]
pub struct RoleOutlineReferenceIterator {
    pub current: OutlineIndex,
    pub end: OutlineIndex,
}

impl RoleOutlineReferenceIterator {
    /// The next outline, or `None` once `end` is reached.
    pub fn next(&mut self) -> (r: Option<RoleOutlineReference>)
        ensures
            old(self).current >= old(self).end ==> r is None && *final(self) == *old(self),
            old(self).current < old(self).end ==> r is Some && r->0.spec_index()
                == old(self).current && final(self).current == old(self).current + 1
                && final(self).end == old(self).end,
    {
        if self.current >= self.end {
            None
        } else {
            let ret = RoleOutlineReference { index: self.current };
            self.current = self.current + 1;
            Some(ret)
        }
    }

    /// How many outlines are left, as a lower and an upper bound.
    pub fn size_hint(&self) -> (r: (usize, Option<usize>))
        ensures
            r.0 == (if self.end >= self.current { self.end - self.current } else { 0 }),
            r.1 == Some(r.0),
    {
        let size: usize = if self.end >= self.current {
            (self.end - self.current) as usize
        } else {
            0
        };
        (size, Some(size))
    }
}

} // verus!

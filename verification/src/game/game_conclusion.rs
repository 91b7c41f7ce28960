//! The ways a game can end.

use vstd::prelude::*;
use crate::vec_set::SetItem;

verus! {

#[derive(Clone, Copy, PartialEq, Eq, Structural, Debug, Hash)]
pub enum GameConclusion {
    Town,
    Mafia,
    Cult,
    Fiends,
    Politician,
    NiceList,
    NaughtyList,
}

impl SetItem for GameConclusion {
    fn same(&self, other: &Self) -> (r: bool) {
        *self == *other
    }
}

} // verus!

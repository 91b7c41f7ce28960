//! Groups of players who know one another.

use vstd::prelude::*;
use crate::vec_set::SetItem;

verus! {

#[derive(Clone, Copy, PartialEq, Eq, Structural, Debug, Hash)]
pub enum InsiderGroupID {
    Mafia,
    Cult,
    Puppeteer,
}

impl SetItem for InsiderGroupID {
    fn same(&self, other: &Self) -> (r: bool) {
        *self == *other
    }
}

} // verus!

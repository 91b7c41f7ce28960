//! The pathologist. Its work happens when players die, before any role
//! hears of the death, in the game's death handling.

use vstd::prelude::*;

verus! {

#[derive(Clone, Copy, Debug, Default)]
pub struct Pathologist;

} // verus!

//! The villager: no ability.

use vstd::prelude::*;

verus! {

#[derive(Clone, Copy, Debug, Default)]
pub struct Villager;

pub type ClientRoleState = Villager;

} // verus!

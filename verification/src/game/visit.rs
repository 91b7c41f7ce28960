//! Night visits.

use vstd::prelude::*;
use super::player::PlayerReference;
use super::role::Role;

verus! {

#[derive(Clone, Copy, PartialEq, Eq, Structural, Debug)]
pub struct Visit {
    pub visitor: PlayerReference,
    pub target: PlayerReference,
    pub attack: bool,
    /// The role whose controller made the visit, and the controller's number.
    pub role: Role,
    pub id: u8,
}

} // verus!

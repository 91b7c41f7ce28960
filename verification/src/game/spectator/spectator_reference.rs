//! A spectator named by its index.

use vstd::prelude::*;

verus! {

#[derive(Clone, Copy, Debug, PartialEq, Eq, Structural)]
pub struct SpectatorReference {
    pub index: u8,
}

} // verus!

//! Marks that roles put on players and that the players' clients show.

use vstd::prelude::*;

verus! {

#[derive(Debug, Clone, Copy, PartialEq, Eq, Structural, Hash)]
pub enum Tag {
    Enfranchised,
    GodfatherBackup,
    Doused,
    WerewolfTracked,
    RevolutionaryTarget,
    MorticianTagged,
    PuppeteerMarionette,
    ForfeitVote,
    Spiraling,
    Disguise,
    SyndicateGun,
    Frame,
}

} // verus!

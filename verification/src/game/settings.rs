//! The settings a game is created with.

use vstd::prelude::*;
use crate::vec_set::VecSet;
use super::phase::PhaseType;
use super::role::Role;
use super::role_list::RoleList;

verus! {

/// The settings of a game.
#[derive(Debug)]
pub struct Settings {
    pub role_list: RoleList,
    pub phase_times: PhaseTimeSettings,
    pub enabled_roles: VecSet<Role>,
    /// Nominations are counted at set times rather than as they come.
    pub scheduled_nominations: bool,
}

/// How long each phase lasts, in seconds.
#[derive(Debug, Clone, Copy, PartialEq, Eq, Structural)]
pub struct PhaseTimeSettings {
    pub briefing: u16,
    pub obituary: u16,
    pub discussion: u16,
    pub nomination: u16,
    pub testimony: u16,
    pub judgement: u16,
    pub final_words: u16,
    pub dusk: u16,
    pub night: u16,
}

/// The length of `phase` in seconds; a recess has no set length.
pub open spec fn phase_seconds(t: PhaseTimeSettings, phase: PhaseType) -> Option<u64> {
    match phase {
        PhaseType::Briefing => Some(t.briefing as u64),
        PhaseType::Obituary => Some(t.obituary as u64),
        PhaseType::Discussion => Some(t.discussion as u64),
        PhaseType::Nomination => Some(t.nomination as u64),
        PhaseType::Testimony => Some(t.testimony as u64),
        PhaseType::Judgement => Some(t.judgement as u64),
        PhaseType::FinalWords => Some(t.final_words as u64),
        PhaseType::Dusk => Some(t.dusk as u64),
        PhaseType::Night => Some(t.night as u64),
        PhaseType::Recess => None,
    }
}

impl PhaseTimeSettings {
    /// The length of `phase` in whole seconds, or `None` for a recess.
    pub fn get_time_for(&self, phase: PhaseType) -> (r: Option<u64>)
        ensures
            r == phase_seconds(*self, phase),
    {
        match phase {
            PhaseType::Briefing => Some(self.briefing as u64),
            PhaseType::Discussion => Some(self.discussion as u64),
            PhaseType::FinalWords => Some(self.final_words as u64),
            PhaseType::Dusk => Some(self.dusk as u64),
            PhaseType::Judgement => Some(self.judgement as u64),
            PhaseType::Obituary => Some(self.obituary as u64),
            PhaseType::Night => Some(self.night as u64),
            PhaseType::Testimony => Some(self.testimony as u64),
            PhaseType::Nomination => Some(self.nomination as u64),
            PhaseType::Recess => None,
        }
    }

    /// A game whose obituary, discussion, nomination, night and dusk all last
    /// no time at all ends as soon as it starts.
    pub fn game_ends_instantly(&self) -> (r: bool)
        ensures
            r == (self.obituary == 0 && self.discussion == 0 && self.nomination == 0
                && self.night == 0 && self.dusk == 0),
    {
        self.obituary == 0 && self.discussion == 0 && self.nomination == 0 && self.night == 0
            && self.dusk == 0
    }
}

impl Default for PhaseTimeSettings {
    fn default() -> (r: Self)
        ensures
            r == (PhaseTimeSettings {
                briefing: 45,
                obituary: 60,
                discussion: 120,
                nomination: 120,
                testimony: 30,
                judgement: 60,
                final_words: 30,
                dusk: 30,
                night: 60,
            }),
    {
        PhaseTimeSettings {
            briefing: 45,
            obituary: 60,
            discussion: 120,
            nomination: 120,
            testimony: 30,
            judgement: 60,
            final_words: 30,
            dusk: 30,
            night: 60,
        }
    }
}

} // verus!

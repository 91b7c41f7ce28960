//! The vigilante: loads three bullets on its first night and shoots one a
//! night after; killing a loyal townsperson makes it take its own life.

use vstd::prelude::*;
use crate::game::{Game, data, valid_player};
use crate::game::player::PlayerReference;
use crate::game::effect::{Effect, GraveKiller};
use crate::game::attack_power::AttackPower;
use crate::game::phase::PhaseType;
use crate::game::visit::Visit;
use super::{Role, Priority};
use super::common_role::{spec_first_visit, first_visit, visits_ok};

verus! {

#[derive(Clone, Copy, Debug, PartialEq, Eq, Structural)]
pub enum VigilanteState {
    NotLoaded,
    Loaded { bullets: u8, night_selection: Option<PlayerReference> },
    WillSuicide,
    Suicided,
}

#[derive(Clone, Copy, Debug, PartialEq, Eq, Structural)]
pub struct Vigilante {
    pub state: VigilanteState,
}

impl Default for Vigilante {
    fn default() -> (r: Self)
        ensures
            r.state == VigilanteState::NotLoaded,
    {
        Vigilante { state: VigilanteState::NotLoaded }
    }
}

/// The vigilante's night: at the top of the night one who will take its own
/// life does; at the kill step a loaded one with bullets shoots the player
/// it visits, spending a bullet (whether the shot kills is known only once
/// the game has applied it: see `after_shot`); an unloaded one loads three.
pub open spec fn vigilante_night(game: Game, actor: PlayerReference, state: VigilanteState, priority: Priority) -> (VigilanteState, Seq<Effect>) {
    match priority {
        Priority::TopPriority => if state == VigilanteState::WillSuicide {
            (
                VigilanteState::Suicided,
                seq![
                    Effect::Attack {
                        attacker: actor,
                        target: actor,
                        killer: GraveKiller::Suicide,
                        power: AttackPower::ProtectionPiercing,
                        leave_death_note: false,
                    },
                ],
            )
        } else {
            (state, Seq::empty())
        },
        Priority::Kill => match state {
            VigilanteState::Loaded { bullets, night_selection } => if bullets > 0 {
                match spec_first_visit(game, actor) {
                    Some(v) => {
                        (
                            VigilanteState::Loaded { bullets: (bullets - 1) as u8, night_selection },
                            seq![
                                Effect::Attack {
                                    attacker: actor,
                                    target: v.target,
                                    killer: GraveKiller::Role(Role::Vigilante),
                                    power: AttackPower::Basic,
                                    leave_death_note: false,
                                },
                            ],
                        )
                    },
                    None => (state, Seq::empty()),
                }
            } else {
                (state, Seq::empty())
            },
            VigilanteState::NotLoaded => (VigilanteState::Loaded { bullets: 3, night_selection: None }, Seq::empty()),
            _ => (state, Seq::empty()),
        },
        _ => (state, Seq::empty()),
    }
}

impl Vigilante {
    pub fn do_night_action(&self, game: &Game, actor_ref: PlayerReference, priority: Priority) -> (r: (Vigilante, Vec<Effect>))
        requires
            visits_ok(*game),
            valid_player(*game, actor_ref),
        ensures
            (r.0.state, r.1@) == vigilante_night(*game, actor_ref, self.state, priority),
    {
        match priority {
            Priority::TopPriority => {
                if self.state == VigilanteState::WillSuicide {
                    (
                        Vigilante { state: VigilanteState::Suicided },
                        vec![Effect::Attack {
                            attacker: actor_ref,
                            target: actor_ref,
                            killer: GraveKiller::Suicide,
                            power: AttackPower::ProtectionPiercing,
                            leave_death_note: false,
                        }],
                    )
                } else {
                    (*self, Vec::new())
                }
            },
            Priority::Kill => match self.state {
                VigilanteState::Loaded { bullets, night_selection } => {
                    if bullets == 0 {
                        return (*self, Vec::new());
                    }
                    match first_visit(game, actor_ref) {
                        Some(v) => {
                            let next = VigilanteState::Loaded { bullets: bullets - 1, night_selection };
                            (
                                Vigilante { state: next },
                                vec![Effect::Attack {
                                    attacker: actor_ref,
                                    target: v.target,
                                    killer: GraveKiller::Role(Role::Vigilante),
                                    power: AttackPower::Basic,
                                    leave_death_note: false,
                                }],
                            )
                        },
                        None => (*self, Vec::new()),
                    }
                },
                VigilanteState::NotLoaded => (
                    Vigilante { state: VigilanteState::Loaded { bullets: 3, night_selection: None } },
                    Vec::new(),
                ),
                _ => (*self, Vec::new()),
            },
            _ => (*self, Vec::new()),
        }
    }

    /// Once the game knows whether the vigilante's shot at `target` killed:
    /// killing a loyal townsperson leaves it bound to take its own life;
    /// otherwise nothing changes.
    pub fn after_shot(&self, game: &Game, target: PlayerReference, killed: bool) -> (r: Vigilante)
        ensures
            r.state == if killed && valid_player(*game, target) && data(*game, target).loyalist_for_town {
                VigilanteState::WillSuicide
            } else {
                self.state
            },
    {
        if killed && (target.index as usize) < game.players.len() && game.players[target.index as usize].loyalist_for_town {
            Vigilante { state: VigilanteState::WillSuicide }
        } else {
            *self
        }
    }

    /// At night a loaded vigilante with bullets takes the player it picked,
    /// when the pick is valid.
    pub fn on_role_action(&self, game: &Game, choice: Option<PlayerReference>, choice_valid: bool) -> (r: Vigilante)
        ensures
            r.state == match self.state {
                VigilanteState::Loaded { bullets, night_selection } => if game.phase == PhaseType::Night && bullets > 0
                    && choice_valid {
                    VigilanteState::Loaded { bullets, night_selection: choice }
                } else {
                    self.state
                },
                _ => self.state,
            },
    {
        if game.phase != PhaseType::Night {
            return *self;
        }
        match self.state {
            VigilanteState::Loaded { bullets, .. } => {
                if bullets > 0 && choice_valid {
                    Vigilante { state: VigilanteState::Loaded { bullets, night_selection: choice } }
                } else {
                    *self
                }
            },
            _ => *self,
        }
    }

    /// A loaded vigilante with bullets visits its pick, as an attack.
    pub fn create_visits(&self, actor_ref: PlayerReference) -> (r: Vec<Visit>)
        ensures
            r@ == match self.state {
                VigilanteState::Loaded { bullets, night_selection: Some(t) } => if bullets > 0 {
                    seq![Visit { visitor: actor_ref, target: t, attack: true, role: Role::Vigilante, id: 0 }]
                } else {
                    Seq::empty()
                },
                _ => Seq::empty(),
            },
    {
        match self.state {
            VigilanteState::Loaded { bullets, night_selection: Some(t) } => {
                if bullets > 0 {
                    vec![Visit { visitor: actor_ref, target: t, attack: true, role: Role::Vigilante, id: 0 }]
                } else {
                    Vec::new()
                }
            },
            _ => Vec::new(),
        }
    }

    /// At nightfall a loaded vigilante's pick is cleared.
    pub fn on_phase_start(&self, phase: PhaseType) -> (r: Vigilante)
        ensures
            r.state == match self.state {
                VigilanteState::Loaded { bullets, .. } => if phase == PhaseType::Night {
                    VigilanteState::Loaded { bullets, night_selection: None }
                } else {
                    self.state
                },
                _ => self.state,
            },
    {
        match self.state {
            VigilanteState::Loaded { bullets, .. } => {
                if phase == PhaseType::Night {
                    Vigilante { state: VigilanteState::Loaded { bullets, night_selection: None } }
                } else {
                    *self
                }
            },
            _ => *self,
        }
    }
}

} // verus!

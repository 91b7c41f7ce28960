//! The vigiloop: loads a bullet for every five players on its first night,
//! and shoots one a night after, unless someone visits it.

use vstd::prelude::*;
use crate::game::{Game, data, valid_player, game_ok};
use crate::game::player::PlayerReference;
use crate::game::chat::ChatMessageVariant;
use crate::game::effect::{Effect, GraveKiller};
use crate::game::attack_power::AttackPower;
use crate::game::visit::Visit;
use crate::game::ability_input::{ControllerID, ControllerParameters, AvailableAbilitySelection};
use super::{Role, OnMidnightPriority};
use super::common_role::{spec_first_visit, first_visit, visitors, visitors_of, selection_visits, convert_controller_selection_to_visits};

verus! {

#[derive(Clone, Copy, Debug, PartialEq, Eq, Structural)]
pub enum VigiloopState {
    NotLoaded,
    Loaded { bullets: u8 },
}

#[derive(Clone, Copy, Debug, PartialEq, Eq, Structural)]
pub struct Vigiloop {
    pub state: VigiloopState,
}

impl Default for Vigiloop {
    fn default() -> (r: Self)
        ensures
            r.state == VigiloopState::NotLoaded,
    {
        Vigiloop { state: VigiloopState::NotLoaded }
    }
}

/// The kill step: a loaded vigiloop with bullets shoots the player it
/// visits, spending a bullet, but misses (and hears that someone survived)
/// when confused or visited; an unloaded one loads a bullet per five players.
pub open spec fn vigiloop_night(game: Game, actor: PlayerReference, state: VigiloopState, priority: OnMidnightPriority) -> (VigiloopState, Seq<Effect>) {
    if priority != OnMidnightPriority::Kill {
        (state, Seq::empty())
    } else {
        match state {
            VigiloopState::Loaded { bullets } => if bullets > 0 {
                match spec_first_visit(game, actor) {
                    Some(v) => (
                        VigiloopState::Loaded { bullets: (bullets - 1) as u8 },
                        if data(game, actor).confused || visitors(game, actor).len() > 0 {
                            seq![Effect::NightMessage { to: actor, message: ChatMessageVariant::SomeoneSurvivedYourAttack }]
                        } else {
                            seq![
                                Effect::Attack {
                                    attacker: actor,
                                    target: v.target,
                                    killer: GraveKiller::Role(Role::Vigiloop),
                                    power: AttackPower::Basic,
                                    leave_death_note: false,
                                },
                            ]
                        },
                    ),
                    None => (state, Seq::empty()),
                }
            } else {
                (state, Seq::empty())
            },
            VigiloopState::NotLoaded => (
                VigiloopState::Loaded { bullets: ((game.players@.len() + 4) / 5) as u8 },
                Seq::empty(),
            ),
        }
    }
}

impl Vigiloop {
    pub fn on_midnight(&self, game: &Game, actor_ref: PlayerReference, priority: OnMidnightPriority) -> (r: (Vigiloop, Vec<Effect>))
        requires
            game_ok(*game),
            game.players@.len() < 256,
            valid_player(*game, actor_ref),
        ensures
            (r.0.state, r.1@) == vigiloop_night(*game, actor_ref, self.state, priority),
    {
        if priority != OnMidnightPriority::Kill {
            return (*self, Vec::new());
        }
        match self.state {
            VigiloopState::Loaded { bullets } => {
                if bullets == 0 {
                    return (*self, Vec::new());
                }
                match first_visit(game, actor_ref) {
                    Some(v) => {
                        let out = if game.players[actor_ref.index as usize].confused || visitors_of(game, actor_ref).len() > 0 {
                            vec![Effect::NightMessage { to: actor_ref, message: ChatMessageVariant::SomeoneSurvivedYourAttack }]
                        } else {
                            vec![Effect::Attack {
                                attacker: actor_ref,
                                target: v.target,
                                killer: GraveKiller::Role(Role::Vigiloop),
                                power: AttackPower::Basic,
                                leave_death_note: false,
                            }]
                        };
                        (Vigiloop { state: VigiloopState::Loaded { bullets: bullets - 1 } }, out)
                    },
                    None => (*self, Vec::new()),
                }
            },
            VigiloopState::NotLoaded => {
                let n = game.num_players();
                (Vigiloop { state: VigiloopState::Loaded { bullets: n / 5 + if n % 5 > 0 { 1 } else { 0 } } }, Vec::new())
            },
        }
    }

    /// The vigiloop picks another player at night, insiders allowed, while
    /// it has a bullet.
    pub fn controller_parameters_map(&self, game: &Game, actor_ref: PlayerReference) -> (r: ControllerParameters)
        ensures
            r.id == ControllerID::role(actor_ref, Role::Vigiloop, 0),
            r.available == (AvailableAbilitySelection::SinglePlayerTypical {
                can_select_self: false,
                can_select_insiders: true,
            }),
            r.night_typical,
            r.grayed_out == !(self.state matches VigiloopState::Loaded { bullets } && bullets >= 1),
    {
        let can_shoot = match self.state {
            VigiloopState::Loaded { bullets } => bullets >= 1,
            VigiloopState::NotLoaded => false,
        };
        ControllerParameters {
            id: ControllerID::role(actor_ref, Role::Vigiloop, 0),
            available: AvailableAbilitySelection::SinglePlayerTypical {
                can_select_self: false,
                can_select_insiders: true,
            },
            grayed_out: !can_shoot,
            night_typical: true,
            reset_on_phase_start: None,
            dont_save: false,
            default_selection: None,
            allowed_players: vec![actor_ref],
        }
    }

    pub fn convert_selection_to_visits(&self, game: &Game, actor_ref: PlayerReference) -> (r: Vec<Visit>)
        ensures
            r@ == selection_visits(*game, actor_ref, Role::Vigiloop, 0, false),
    {
        convert_controller_selection_to_visits(game, actor_ref, Role::Vigiloop, 0, false)
    }
}

} // verus!

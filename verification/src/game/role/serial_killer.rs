//! The serial killer: attacks a player every night after the first.

use vstd::prelude::*;
use crate::game::{Game, valid_player};
use crate::game::player::PlayerReference;
use crate::game::effect::{Effect, GraveKiller};
use crate::game::attack_power::AttackPower;
use crate::game::visit::Visit;
use crate::game::ability_input::{ControllerID, ControllerParameters, AvailableAbilitySelection};
use super::{Role, Priority};
use super::common_role::{spec_first_visit, first_visit, selection_visits, convert_controller_selection_to_visits};

verus! {

#[derive(Clone, Copy, Debug, Default)]
pub struct SerialKiller;

impl SerialKiller {
    /// At the kill step after the first night, a basic attack on the player
    /// it visits.
    pub fn do_night_action(&self, game: &Game, actor_ref: PlayerReference, priority: Priority) -> (r: Vec<Effect>)
        requires
            valid_player(*game, actor_ref),
        ensures
            r@ == if priority == Priority::Kill && game.day_number != 1 && spec_first_visit(*game, actor_ref) is Some {
                seq![
                    Effect::Attack {
                        attacker: actor_ref,
                        target: spec_first_visit(*game, actor_ref)->0.target,
                        killer: GraveKiller::Role(Role::SerialKiller),
                        power: AttackPower::Basic,
                        leave_death_note: true,
                    },
                ]
            } else {
                Seq::empty()
            },
    {
        let mut out: Vec<Effect> = Vec::new();
        if priority != Priority::Kill || game.day_number == 1 {
            return out;
        }
        match first_visit(game, actor_ref) {
            Some(v) => {
                out.push(
                    Effect::Attack {
                        attacker: actor_ref,
                        target: v.target,
                        killer: GraveKiller::Role(Role::SerialKiller),
                        power: AttackPower::Basic,
                        leave_death_note: true,
                    },
                );
            },
            None => {},
        }
        out
    }

    /// Another player at night, from the second night on.
    pub fn controller_parameters_map(&self, game: &Game, actor_ref: PlayerReference) -> (r: ControllerParameters)
        ensures
            r.id == ControllerID::role(actor_ref, Role::SerialKiller, 0),
            r.available == (AvailableAbilitySelection::SinglePlayerTypical {
                can_select_self: false,
                can_select_insiders: true,
            }),
            r.night_typical,
            r.grayed_out == (game.day_number <= 1),
    {
        ControllerParameters {
            id: ControllerID::role(actor_ref, Role::SerialKiller, 0),
            available: AvailableAbilitySelection::SinglePlayerTypical {
                can_select_self: false,
                can_select_insiders: true,
            },
            grayed_out: game.day_number <= 1,
            night_typical: true,
            reset_on_phase_start: None,
            dont_save: false,
            default_selection: None,
            allowed_players: vec![actor_ref],
        }
    }

    pub fn convert_selection_to_visits(&self, game: &Game, actor_ref: PlayerReference) -> (r: Vec<Visit>)
        ensures
            r@ == selection_visits(*game, actor_ref, Role::SerialKiller, 0, false),
    {
        convert_controller_selection_to_visits(game, actor_ref, Role::SerialKiller, 0, false)
    }
}

} // verus!

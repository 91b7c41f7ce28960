//! The zealot: kills for the cult on the nights the cult kills.

use vstd::prelude::*;
use crate::game::{Game, data, valid_player};
use crate::game::player::PlayerReference;
use crate::game::effect::{Effect, GraveKiller};
use crate::game::attack_power::{AttackPower, pierces};
use crate::game::role_list::RoleSet;
use crate::game::visit::Visit;
use crate::game::ability_input::{ControllerID, ControllerParameters, AvailableAbilitySelection};
use super::{Role, Priority};
use super::common_role::{spec_first_visit, first_visit, visits_ok, selection_visits, convert_controller_selection_to_visits};

verus! {

#[derive(Clone, Copy, Debug, Default)]
pub struct Zealot;

impl Zealot {
    /// On a cult kill night, at the kill step, a basic attack on the player
    /// it visits; when it gets through, the cult's kill is used.
    pub fn do_night_action(&self, game: &Game, actor_ref: PlayerReference, priority: Priority) -> (r: Vec<Effect>)
        requires
            visits_ok(*game),
            valid_player(*game, actor_ref),
        ensures
            r@ == if priority == Priority::Kill && game.cult_next_ability_kill && spec_first_visit(*game, actor_ref) is Some {
                let t = spec_first_visit(*game, actor_ref)->0.target;
                seq![
                    Effect::Attack {
                        attacker: actor_ref,
                        target: t,
                        killer: GraveKiller::RoleSet(RoleSet::Cult),
                        power: AttackPower::Basic,
                        leave_death_note: false,
                    },
                ] + if pierces(AttackPower::Basic, data(*game, t).defense) {
                    seq![Effect::CultKillUsed]
                } else {
                    Seq::empty()
                }
            } else {
                Seq::empty()
            },
    {
        let mut out: Vec<Effect> = Vec::new();
        if priority != Priority::Kill || !game.cult_next_ability_kill {
            return out;
        }
        match first_visit(game, actor_ref) {
            Some(v) => {
                assert(valid_player(*game, crate::game::role::common_role::visits_of(*game, actor_ref)[0].target));
                out.push(
                    Effect::Attack {
                        attacker: actor_ref,
                        target: v.target,
                        killer: GraveKiller::RoleSet(RoleSet::Cult),
                        power: AttackPower::Basic,
                        leave_death_note: false,
                    },
                );
                if AttackPower::Basic.can_pierce(game.players[v.target.index as usize].defense) {
                    out.push(Effect::CultKillUsed);
                }
                out
            },
            None => out,
        }
    }

    /// Another player at night, outsiders only, grayed out unless the cult
    /// kills next.
    pub fn controller_parameters_map(&self, game: &Game, actor_ref: PlayerReference) -> (r: ControllerParameters)
        ensures
            r.id == ControllerID::role(actor_ref, Role::Zealot, 0),
            r.available == (AvailableAbilitySelection::SinglePlayerTypical {
                can_select_self: false,
                can_select_insiders: false,
            }),
            r.night_typical,
            r.grayed_out == !game.cult_next_ability_kill,
    {
        ControllerParameters {
            id: ControllerID::role(actor_ref, Role::Zealot, 0),
            available: AvailableAbilitySelection::SinglePlayerTypical {
                can_select_self: false,
                can_select_insiders: false,
            },
            grayed_out: !game.cult_next_ability_kill,
            night_typical: true,
            reset_on_phase_start: None,
            dont_save: false,
            default_selection: None,
            allowed_players: vec![actor_ref],
        }
    }

    /// The zealot's visit is an attack.
    pub fn convert_selection_to_visits(&self, game: &Game, actor_ref: PlayerReference) -> (r: Vec<Visit>)
        ensures
            r@ == selection_visits(*game, actor_ref, Role::Zealot, 0, true),
    {
        convert_controller_selection_to_visits(game, actor_ref, Role::Zealot, 0, true)
    }
}

} // verus!

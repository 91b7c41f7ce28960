//! The wanderer: picks a player, a role and an outline to wander to.

use vstd::prelude::*;
use crate::game::{Game, data, valid_player};
use crate::game::player::PlayerReference;
use crate::game::phase::PhaseType;
use crate::game::visit::Visit;
use crate::game::ability_input::{ControllerID, ControllerParameters, AvailableAbilitySelection, AbilitySelection};
use super::Role;
use super::common_role::{selection_visits, convert_controller_selection_to_visits};

verus! {

#[derive(Clone, Copy, Debug, Default)]
pub struct Wanderer;

impl Wanderer {
    /// Three controllers: a player at night (itself and insiders allowed);
    /// any enabled role or none, grayed out once the ability is gone or while
    /// detained, cleared at the obituary; and an outline of the role list.
    pub fn controller_parameters_map(&self, game: &Game, actor_ref: PlayerReference) -> (r: Vec<ControllerParameters>)
        requires
            valid_player(*game, actor_ref),
        ensures
            r@.len() == 3,
            r@[0].id == ControllerID::role(actor_ref, Role::Wanderer, 0),
            r@[0].available == (AvailableAbilitySelection::SinglePlayerTypical {
                can_select_self: true,
                can_select_insiders: true,
            }),
            r@[0].night_typical,
            !r@[0].grayed_out,
            r@[1].id == ControllerID::role(actor_ref, Role::Wanderer, 1),
            r@[1].available matches AvailableAbilitySelection::RoleOption { available_roles }
                && available_roles@ == game.settings.enabled_roles@.map_values(|x: Role| Some(x)).push(None),
            r@[1].default_selection matches Some(AbilitySelection::PlayerList(v)) && v@.len() == 0,
            r@[1].grayed_out == (data(*game, actor_ref).ability_deactivated_from_death || data(*game, actor_ref).detained),
            r@[1].reset_on_phase_start == Some(PhaseType::Obituary),
            r@[1].allowed_players@ == seq![actor_ref],
            r@[2].id == ControllerID::role(actor_ref, Role::Wanderer, 2),
            r@[2].available == AvailableAbilitySelection::RoleOutlineTypical,
            r@[2].night_typical,
    {
        let d = &game.players[actor_ref.index as usize];
        let enabled = game.settings.enabled_roles.as_vec();
        let mut roles: Vec<Option<Role>> = Vec::new();
        let mut i: usize = 0;
        while i < enabled.len()
            invariant
                i <= enabled@.len(),
                roles@ =~= enabled@.map_values(|x: Role| Some(x)).take(i as int),
            decreases enabled@.len() - i,
        {
            roles.push(Some(enabled[i]));
            i = i + 1;
        }
        proof {
            assert(enabled@.map_values(|x: Role| Some(x)).take(i as int) =~= enabled@.map_values(|x: Role| Some(x)));
        }
        roles.push(None);
        let player = ControllerParameters {
            id: ControllerID::role(actor_ref, Role::Wanderer, 0),
            available: AvailableAbilitySelection::SinglePlayerTypical { can_select_self: true, can_select_insiders: true },
            grayed_out: false,
            night_typical: true,
            reset_on_phase_start: None,
            dont_save: false,
            default_selection: None,
            allowed_players: vec![actor_ref],
        };
        let role = ControllerParameters {
            id: ControllerID::role(actor_ref, Role::Wanderer, 1),
            available: AvailableAbilitySelection::RoleOption { available_roles: roles },
            grayed_out: d.ability_deactivated_from_death || d.detained,
            night_typical: false,
            reset_on_phase_start: Some(PhaseType::Obituary),
            dont_save: false,
            default_selection: Some(AbilitySelection::PlayerList(Vec::new())),
            allowed_players: vec![actor_ref],
        };
        let outline = ControllerParameters {
            id: ControllerID::role(actor_ref, Role::Wanderer, 2),
            available: AvailableAbilitySelection::RoleOutlineTypical,
            grayed_out: false,
            night_typical: true,
            reset_on_phase_start: None,
            dont_save: false,
            default_selection: None,
            allowed_players: vec![actor_ref],
        };
        vec![player, role, outline]
    }

    /// The visits of the three controllers, in order, none an attack.
    pub fn convert_selection_to_visits(&self, game: &Game, actor_ref: PlayerReference) -> (r: Vec<Visit>)
        ensures
            r@ == selection_visits(*game, actor_ref, Role::Wanderer, 0, false) + selection_visits(
                *game,
                actor_ref,
                Role::Wanderer,
                1,
                false,
            ) + selection_visits(*game, actor_ref, Role::Wanderer, 2, false),
    {
        let mut visits = convert_controller_selection_to_visits(game, actor_ref, Role::Wanderer, 0, false);
        let mut second = convert_controller_selection_to_visits(game, actor_ref, Role::Wanderer, 1, false);
        let mut third = convert_controller_selection_to_visits(game, actor_ref, Role::Wanderer, 2, false);
        visits.append(&mut second);
        visits.append(&mut third);
        visits
    }
}

} // verus!

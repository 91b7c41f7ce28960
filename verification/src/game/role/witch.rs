//! The witch: makes a living player use their ability on another.

use vstd::prelude::*;
use crate::game::{Game, data, valid_player, game_ok, alive, filtered, filter_players};
use crate::game::player::PlayerReference;
use crate::game::effect::Effect;
use crate::game::phase::PhaseType;
use crate::game::visit::Visit;
use crate::game::ability_input::{ControllerID, ControllerParameters, AvailableAbilitySelection, AbilitySelection};
use super::{Role, GetClientRoleState};
use super::scarecrow::all_friends;
use super::warper::leave_when_all_friends;
use super::common_role::{selection_visits, convert_controller_selection_to_visits};

verus! {

#[derive(Clone, Copy, Debug, PartialEq, Eq, Structural)]
pub struct Witch {
    pub currently_used_player: Option<PlayerReference>,
}

#[derive(Clone, Copy, Debug)]
pub struct ClientRoleState;

impl Default for Witch {
    fn default() -> (r: Self)
        ensures
            r.currently_used_player is None,
    {
        Witch { currently_used_player: None }
    }
}

impl Witch {
    /// The game works a player's ability for the witch; when it did, that
    /// player is the one in use.
    pub fn do_night_action(&self, used_player: Option<PlayerReference>) -> (r: Witch)
        ensures
            used_player is Some ==> r.currently_used_player == used_player,
            used_player is None ==> r == *self,
    {
        match used_player {
            Some(p) => Witch { currently_used_player: Some(p) },
            None => *self,
        }
    }

    /// Another living player and a living player, or none, repeats allowed;
    /// grayed out while the witch is dead or detained; cleared at the obituary.
    pub fn controller_parameters_map(&self, game: &Game, actor_ref: PlayerReference) -> (r: ControllerParameters)
        requires
            game_ok(*game),
            valid_player(*game, actor_ref),
        ensures
            r.id == ControllerID::role(actor_ref, Role::Witch, 0),
            r.available matches AvailableAbilitySelection::TwoPlayerOption {
                available_first_players,
                available_second_players,
                can_choose_duplicates,
                can_choose_none,
            } && available_first_players@ == filtered(*game, (Some(true), seq![actor_ref], None))
                && available_second_players@ == filtered(*game, (Some(true), Seq::empty(), None)) && can_choose_duplicates
                && can_choose_none,
            r.default_selection == Some(AbilitySelection::TwoPlayerOption(None)),
            r.grayed_out == (!alive(*game, actor_ref) || data(*game, actor_ref).detained),
            r.reset_on_phase_start == Some(PhaseType::Obituary),
            r.allowed_players@ == seq![actor_ref],
    {
        let exclude = vec![actor_ref];
        let first = filter_players(game, Some(true), &exclude, None);
        proof {
            assert(exclude@ =~= seq![actor_ref]);
        }
        ControllerParameters {
            id: ControllerID::role(actor_ref, Role::Witch, 0),
            available: AvailableAbilitySelection::TwoPlayerOption {
                available_first_players: first,
                available_second_players: filter_players(game, Some(true), &Vec::new(), None),
                can_choose_duplicates: true,
                can_choose_none: true,
            },
            grayed_out: !crate::game::player_alive(game, actor_ref) || game.players[actor_ref.index as usize].detained,
            night_typical: false,
            reset_on_phase_start: Some(PhaseType::Obituary),
            dont_save: false,
            default_selection: Some(AbilitySelection::TwoPlayerOption(None)),
            allowed_players: vec![actor_ref],
        }
    }

    pub fn convert_selection_to_visits(&self, game: &Game, actor_ref: PlayerReference) -> (r: Vec<Visit>)
        ensures
            r@ == selection_visits(*game, actor_ref, Role::Witch, 0, false),
    {
        convert_controller_selection_to_visits(game, actor_ref, Role::Witch, 0, false)
    }

    /// A living witch leaves the town once everyone left wins with it; at
    /// nightfall no player is in use.
    pub fn on_phase_start(&self, game: &Game, actor_ref: PlayerReference, phase: PhaseType) -> (r: (Witch, Vec<Effect>))
        requires
            game_ok(*game),
            valid_player(*game, actor_ref),
        ensures
            r.1@ == if alive(*game, actor_ref) && all_friends(*game, actor_ref) {
                seq![Effect::LeaveTown { player: actor_ref }]
            } else {
                Seq::empty()
            },
            r.0 == if phase == PhaseType::Night { Witch { currently_used_player: None } } else { *self },
    {
        let out = leave_when_all_friends(game, actor_ref);
        if phase == PhaseType::Night {
            (Witch { currently_used_player: None }, out)
        } else {
            (*self, out)
        }
    }
}

impl GetClientRoleState<ClientRoleState> for Witch {
    fn get_client_role_state(self, game: &Game, actor_ref: PlayerReference) -> ClientRoleState {
        ClientRoleState
    }
}

} // verus!

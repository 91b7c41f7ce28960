//! The transporter: swaps two players for the night.

use vstd::prelude::*;
use crate::game::{Game, data, valid_player, game_ok, filtered, filter_players};
use crate::game::player::PlayerReference;
use crate::game::effect::Effect;
use crate::game::phase::PhaseType;
use crate::game::visit::Visit;
use crate::game::ability_input::{ControllerID, ControllerParameters, AvailableAbilitySelection, AbilitySelection};
use super::{Role, Priority};
use super::common_role::{visits_of, selection_visits, convert_controller_selection_to_visits};

verus! {

#[derive(Clone, Copy, Debug, Default)]
pub struct Transporter;

impl Transporter {
    /// At the transport step, with two visits made, their targets are swapped.
    pub fn do_night_action(&self, game: &Game, actor_ref: PlayerReference, priority: Priority) -> (r: Vec<Effect>)
        requires
            valid_player(*game, actor_ref),
        ensures
            r@ == if priority == Priority::Transporter && visits_of(*game, actor_ref).len() >= 2 {
                seq![Effect::Transport { first: visits_of(*game, actor_ref)[0].target, second: visits_of(*game, actor_ref)[1].target }]
            } else {
                Seq::empty()
            },
    {
        let vs = &game.players[actor_ref.index as usize].night_visits;
        if priority == Priority::Transporter && vs.len() >= 2 {
            vec![Effect::Transport { first: vs[0].target, second: vs[1].target }]
        } else {
            Vec::new()
        }
    }

    /// Two living players, or none, the two different; grayed out once the
    /// ability is gone or while detained; cleared at the obituary.
    pub fn controller_parameters_map(&self, game: &Game, actor_ref: PlayerReference) -> (r: ControllerParameters)
        requires
            game_ok(*game),
            valid_player(*game, actor_ref),
        ensures
            r.id == ControllerID::role(actor_ref, Role::Transporter, 0),
            r.available matches AvailableAbilitySelection::TwoPlayerOption {
                available_first_players,
                available_second_players,
                can_choose_duplicates,
                can_choose_none,
            } && available_first_players@ == filtered(*game, (Some(true), Seq::empty(), None))
                && available_second_players@ == available_first_players@ && !can_choose_duplicates && can_choose_none,
            r.default_selection == Some(AbilitySelection::TwoPlayerOption(None)),
            r.grayed_out == (data(*game, actor_ref).ability_deactivated_from_death || data(*game, actor_ref).detained),
            r.reset_on_phase_start == Some(PhaseType::Obituary),
            r.allowed_players@ == seq![actor_ref],
    {
        let d = &game.players[actor_ref.index as usize];
        ControllerParameters {
            id: ControllerID::role(actor_ref, Role::Transporter, 0),
            available: AvailableAbilitySelection::TwoPlayerOption {
                available_first_players: filter_players(game, Some(true), &Vec::new(), None),
                available_second_players: filter_players(game, Some(true), &Vec::new(), None),
                can_choose_duplicates: false,
                can_choose_none: true,
            },
            grayed_out: d.ability_deactivated_from_death || d.detained,
            night_typical: false,
            reset_on_phase_start: Some(PhaseType::Obituary),
            dont_save: false,
            default_selection: Some(AbilitySelection::TwoPlayerOption(None)),
            allowed_players: vec![actor_ref],
        }
    }

    pub fn convert_selection_to_visits(&self, game: &Game, actor_ref: PlayerReference) -> (r: Vec<Visit>)
        ensures
            r@ == selection_visits(*game, actor_ref, Role::Transporter, 0, false),
    {
        convert_controller_selection_to_visits(game, actor_ref, Role::Transporter, 0, false)
    }
}

} // verus!

//! The porter: sends everyone who visits one player to another instead.

use vstd::prelude::*;
use crate::game::{Game, valid_player, game_ok, filtered, filter_players};
use crate::game::player::PlayerReference;
use crate::game::effect::Effect;
use crate::game::visit::Visit;
use crate::game::ability_input::{ControllerID, ControllerParameters, AvailableAbilitySelection};
use super::{Role, OnMidnightPriority};
use super::common_role::{visits_of, selection_visits, convert_controller_selection_to_visits};

verus! {

#[derive(Clone, Copy, Debug, Default)]
pub struct Porter;

impl Porter {
    /// At the warping step, with two visits made, every visit to the first
    /// target is redirected to the second.
    pub fn on_midnight(&self, game: &Game, actor_ref: PlayerReference, priority: OnMidnightPriority) -> (r: Vec<Effect>)
        requires
            valid_player(*game, actor_ref),
        ensures
            r@ == if priority == OnMidnightPriority::Warper && visits_of(*game, actor_ref).len() >= 2 {
                seq![Effect::Redirect { from: visits_of(*game, actor_ref)[0].target, to: visits_of(*game, actor_ref)[1].target }]
            } else {
                Seq::empty()
            },
    {
        let mut out: Vec<Effect> = Vec::new();
        let vs = &game.players[actor_ref.index as usize].night_visits;
        if priority == OnMidnightPriority::Warper && vs.len() >= 2 {
            out.push(Effect::Redirect { from: vs[0].target, to: vs[1].target });
        }
        out
    }

    /// Another living player to move visits away from, and a living player
    /// to send them to, or none; the two must differ.
    pub fn controller_parameters_map(&self, game: &Game, actor_ref: PlayerReference) -> (r: ControllerParameters)
        requires
            game_ok(*game),
        ensures
            r.id == ControllerID::role(actor_ref, Role::Porter, 0),
            r.available matches AvailableAbilitySelection::TwoPlayerOption {
                available_first_players,
                available_second_players,
                can_choose_duplicates,
                can_choose_none,
            } && available_first_players@ == filtered(*game, (Some(true), seq![actor_ref], None))
                && available_second_players@ == filtered(*game, (Some(true), Seq::empty(), None)) && !can_choose_duplicates
                && can_choose_none,
            r.night_typical,
            !r.grayed_out,
    {
        let exclude = vec![actor_ref];
        let first = filter_players(game, Some(true), &exclude, None);
        let second = filter_players(game, Some(true), &Vec::new(), None);
        proof {
            assert(exclude@ =~= seq![actor_ref]);
        }
        ControllerParameters {
            id: ControllerID::role(actor_ref, Role::Porter, 0),
            available: AvailableAbilitySelection::TwoPlayerOption {
                available_first_players: first,
                available_second_players: second,
                can_choose_duplicates: false,
                can_choose_none: true,
            },
            grayed_out: false,
            night_typical: true,
            reset_on_phase_start: None,
            dont_save: false,
            default_selection: None,
            allowed_players: vec![actor_ref],
        }
    }

    pub fn convert_selection_to_visits(&self, game: &Game, actor_ref: PlayerReference) -> (r: Vec<Visit>)
        ensures
            r@ == selection_visits(*game, actor_ref, Role::Porter, 0, false),
    {
        convert_controller_selection_to_visits(game, actor_ref, Role::Porter, 0, false)
    }
}

} // verus!

//! The tracker: sees whom the player it visits visited.

use vstd::prelude::*;
use crate::game::{Game, data, valid_player, game_ok};
use crate::game::player::PlayerReference;
use crate::game::chat::ChatMessageVariant;
use crate::game::effect::Effect;
use crate::game::visit::Visit;
use crate::game::ability_input::{ControllerID, ControllerParameters, AvailableAbilitySelection};
use crate::random::shuffle;
use super::{Role, OnMidnightPriority};
use super::common_role::{spec_first_visit, first_visit, target_indices, visited_indices, selection_visits, convert_controller_selection_to_visits};

verus! {

#[derive(Clone, Copy, Debug, Default)]
pub struct Tracker;

/// Whether `e` tells `actor` whom `p` visited, in some order.
pub open spec fn is_tracker_report(game: Game, actor: PlayerReference, p: PlayerReference, e: Effect) -> bool {
    match e {
        Effect::NightMessage { to, message: ChatMessageVariant::TrackerResult { players } } => to == actor
            && players@.to_multiset() == target_indices(game, p).to_multiset(),
        _ => false,
    }
}

impl Tracker {
    /// At the investigative step the tracker sees, in a random order, whom
    /// the player it visits visited.
    pub fn on_midnight(&self, game: &Game, actor_ref: PlayerReference, priority: OnMidnightPriority) -> (r: Vec<Effect>)
        requires
            valid_player(*game, actor_ref),
        ensures
            priority == OnMidnightPriority::Investigative && spec_first_visit(*game, actor_ref) is Some ==> r@.len() == 1
                && is_tracker_report(*game, actor_ref, spec_first_visit(*game, actor_ref)->0.target, r@[0]),
            !(priority == OnMidnightPriority::Investigative && spec_first_visit(*game, actor_ref) is Some) ==> r@.len() == 0,
    {
        if priority != OnMidnightPriority::Investigative {
            return Vec::new();
        }
        match first_visit(game, actor_ref) {
            Some(v) => {
                let mut players = visited_indices(game, v.target);
                shuffle(&mut players);
                vec![Effect::NightMessage { to: actor_ref, message: ChatMessageVariant::TrackerResult { players } }]
            },
            None => Vec::new(),
        }
    }

    /// The tracker picks another player at night, insiders allowed.
    pub fn controller_parameters_map(&self, game: &Game, actor_ref: PlayerReference) -> (r: ControllerParameters)
        ensures
            r.id == ControllerID::role(actor_ref, Role::Tracker, 0),
            r.available == (AvailableAbilitySelection::SinglePlayerTypical {
                can_select_self: false,
                can_select_insiders: true,
            }),
            r.night_typical,
            !r.grayed_out,
    {
        ControllerParameters {
            id: ControllerID::role(actor_ref, Role::Tracker, 0),
            available: AvailableAbilitySelection::SinglePlayerTypical {
                can_select_self: false,
                can_select_insiders: true,
            },
            grayed_out: false,
            night_typical: true,
            reset_on_phase_start: None,
            dont_save: false,
            default_selection: None,
            allowed_players: vec![actor_ref],
        }
    }

    pub fn convert_selection_to_visits(&self, game: &Game, actor_ref: PlayerReference) -> (r: Vec<Visit>)
        ensures
            r@ == selection_visits(*game, actor_ref, Role::Tracker, 0, false),
    {
        convert_controller_selection_to_visits(game, actor_ref, Role::Tracker, 0, false)
    }
}

} // verus!

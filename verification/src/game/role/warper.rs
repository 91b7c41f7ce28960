//! The warper: sends everyone who visits one player to another, telling
//! the warper the first one's role.

use vstd::prelude::*;
use crate::game::{Game, data, valid_player, game_ok, alive, filtered, filter_players};
use crate::game::player::PlayerReference;
use crate::game::chat::ChatMessageVariant;
use crate::game::effect::Effect;
use crate::game::phase::PhaseType;
use crate::game::visit::Visit;
use crate::game::ability_input::{ControllerID, ControllerParameters, AvailableAbilitySelection, AbilitySelection};
use super::{Role, Priority};
use super::scarecrow::all_friends;
use super::common_role::{visits_of, visits_ok, selection_visits, convert_controller_selection_to_visits};

verus! {

#[derive(Clone, Copy, Debug, Default)]
pub struct Warper;

/// A living player leaves the town once every living player who keeps the
/// game running wins together with them.
pub fn leave_when_all_friends(game: &Game, actor_ref: PlayerReference) -> (r: Vec<Effect>)
    requires
        game_ok(*game),
        valid_player(*game, actor_ref),
    ensures
        r@ == if alive(*game, actor_ref) && all_friends(*game, actor_ref) {
            seq![Effect::LeaveTown { player: actor_ref }]
        } else {
            Seq::empty()
        },
{
    super::scarecrow::Scarecrow.on_phase_start(game, actor_ref)
}

impl Warper {
    /// At the warping step, with two visits made, the first target is told
    /// they were moved, the warper learns their role, and visits to them
    /// land on the second target.
    pub fn do_night_action(&self, game: &Game, actor_ref: PlayerReference, priority: Priority) -> (r: Vec<Effect>)
        requires
            visits_ok(*game),
            valid_player(*game, actor_ref),
        ensures
            r@ == if priority == Priority::Warper && visits_of(*game, actor_ref).len() >= 2 {
                let a = visits_of(*game, actor_ref)[0].target;
                let b = visits_of(*game, actor_ref)[1].target;
                seq![
                    Effect::NightMessage { to: a, message: ChatMessageVariant::Transported },
                    Effect::NightMessage { to: actor_ref, message: ChatMessageVariant::TargetHasRole { role: data(*game, a).role } },
                    Effect::Warp { warper: actor_ref, from: a, to: b },
                ]
            } else {
                Seq::empty()
            },
    {
        let vs = &game.players[actor_ref.index as usize].night_visits;
        if priority != Priority::Warper || vs.len() < 2 {
            return Vec::new();
        }
        let a = vs[0].target;
        let b = vs[1].target;
        assert(valid_player(*game, visits_of(*game, actor_ref)[0].target));
        vec![
            Effect::NightMessage { to: a, message: ChatMessageVariant::Transported },
            Effect::NightMessage { to: actor_ref, message: ChatMessageVariant::TargetHasRole { role: game.players[a.index as usize].role } },
            Effect::Warp { warper: actor_ref, from: a, to: b },
        ]
    }

    pub fn on_phase_start(&self, game: &Game, actor_ref: PlayerReference) -> (r: Vec<Effect>)
        requires
            game_ok(*game),
            valid_player(*game, actor_ref),
        ensures
            r@ == if alive(*game, actor_ref) && all_friends(*game, actor_ref) {
                seq![Effect::LeaveTown { player: actor_ref }]
            } else {
                Seq::empty()
            },
    {
        leave_when_all_friends(game, actor_ref)
    }

    /// Another living player and a living player, or none, repeats allowed;
    /// grayed out once the ability is gone or while detained; cleared at the
    /// obituary.
    pub fn controller_parameters_map(&self, game: &Game, actor_ref: PlayerReference) -> (r: ControllerParameters)
        requires
            game_ok(*game),
            valid_player(*game, actor_ref),
        ensures
            r.id == ControllerID::role(actor_ref, Role::Warper, 0),
            r.available matches AvailableAbilitySelection::TwoPlayerOption {
                available_first_players,
                available_second_players,
                can_choose_duplicates,
                can_choose_none,
            } && available_first_players@ == filtered(*game, (Some(true), seq![actor_ref], None))
                && available_second_players@ == filtered(*game, (Some(true), Seq::empty(), None)) && can_choose_duplicates
                && can_choose_none,
            r.default_selection == Some(AbilitySelection::TwoPlayerOption(None)),
            r.grayed_out == (data(*game, actor_ref).ability_deactivated_from_death || data(*game, actor_ref).detained),
            r.reset_on_phase_start == Some(PhaseType::Obituary),
            r.allowed_players@ == seq![actor_ref],
    {
        let exclude = vec![actor_ref];
        let first = filter_players(game, Some(true), &exclude, None);
        proof {
            assert(exclude@ =~= seq![actor_ref]);
        }
        let d = &game.players[actor_ref.index as usize];
        ControllerParameters {
            id: ControllerID::role(actor_ref, Role::Warper, 0),
            available: AvailableAbilitySelection::TwoPlayerOption {
                available_first_players: first,
                available_second_players: filter_players(game, Some(true), &Vec::new(), None),
                can_choose_duplicates: true,
                can_choose_none: true,
            },
            grayed_out: d.ability_deactivated_from_death || d.detained,
            night_typical: false,
            reset_on_phase_start: Some(PhaseType::Obituary),
            dont_save: false,
            default_selection: Some(AbilitySelection::TwoPlayerOption(None)),
            allowed_players: vec![actor_ref],
        }
    }

    pub fn convert_selection_to_visits(&self, game: &Game, actor_ref: PlayerReference) -> (r: Vec<Visit>)
        ensures
            r@ == selection_visits(*game, actor_ref, Role::Warper, 0, false),
    {
        convert_controller_selection_to_visits(game, actor_ref, Role::Warper, 0, false)
    }
}

} // verus!

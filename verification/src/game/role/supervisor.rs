//! The supervisor: counts who visited a player and whom they visited.

use vstd::prelude::*;
use crate::game::{Game, data, valid_player, game_ok};
use crate::game::player::PlayerReference;
use crate::game::chat::ChatMessageVariant;
use crate::game::effect::Effect;
use crate::game::visit::Visit;
use crate::game::ability_input::{ControllerID, ControllerParameters, AvailableAbilitySelection};
use crate::random::random_range;
use super::{Role, Priority};
use super::common_role::{visits_of, spec_first_visit, first_visit, visitors, visitors_of, visits_ok, selection_visits, convert_controller_selection_to_visits};

verus! {

#[derive(Clone, Copy, Debug, Default)]
pub struct Supervisor;

pub open spec fn clamp_u8(n: nat) -> u8 {
    if n > 255 {
        255
    } else {
        n as u8
    }
}

pub open spec fn min_u8(a: int, b: int) -> u8 {
    (if a <= b { a } else { b }) as u8
}

/// The supervisor's counts for `target`, with the rolls of a confused
/// supervisor: the first (of three) may add one visitor (at most the number
/// of players) or drop to at most one, the second (of four) may add one visit
/// (at most the number of players) or, for two of its values, take one away.
pub open spec fn supervisor_counts(game: Game, target: PlayerReference, confused: bool, roll_a: u8, roll_b: u8) -> (u8, u8) {
    let n = game.players@.len() as int;
    let visitors = clamp_u8(visitors(game, target).len());
    let visited = clamp_u8(visits_of(game, target).len());
    let visitors2 = if confused && roll_a == 1 {
        min_u8(if visitors < 255 { visitors + 1 } else { 255 }, n)
    } else if confused && roll_a == 2 {
        min_u8(if visitors > 0 { visitors - 1 } else { 0 }, 1)
    } else {
        visitors
    };
    let visited2 = if confused && roll_b == 1 {
        min_u8(if visited < 255 { visited + 1 } else { 255 }, n)
    } else if confused && (roll_b == 2 || roll_b == 3) {
        if visited > 0 { (visited - 1) as u8 } else { 0 }
    } else {
        visited
    };
    (visited2, visitors2)
}

/// A suspicious aura makes a player suspicious, else an innocent aura makes
/// them not, else they are suspicious unless loyal to the town.
pub open spec fn spec_player_is_suspicious(game: Game, p: PlayerReference) -> bool {
    if data(game, p).has_suspicious_aura {
        true
    } else if data(game, p).has_innocent_aura {
        false
    } else {
        !data(game, p).loyalist_for_town
    }
}

/// Who reads as suspicious: anyone with a suspicious aura; no one with only
/// an innocent aura; and anyone with neither exactly when they are not loyal
/// to the town.
pub proof fn lemma_player_is_suspicious(game: Game, p: PlayerReference)
    ensures
        data(game, p).has_suspicious_aura ==> spec_player_is_suspicious(game, p),
        !data(game, p).has_suspicious_aura && data(game, p).has_innocent_aura ==> !spec_player_is_suspicious(game, p),
        !data(game, p).has_suspicious_aura && !data(game, p).has_innocent_aura ==> (spec_player_is_suspicious(game, p)
            <==> !data(game, p).loyalist_for_town),
{
}

impl Supervisor {
    pub fn player_is_suspicious(game: &Game, player_ref: PlayerReference) -> (r: bool)
        requires
            valid_player(*game, player_ref),
        ensures
            r == spec_player_is_suspicious(*game, player_ref),
    {
        let d = &game.players[player_ref.index as usize];
        if d.has_suspicious_aura {
            true
        } else if d.has_innocent_aura {
            false
        } else {
            !d.loyalist_for_town
        }
    }

    /// The counts for `target` with given rolls.
    pub fn counts(game: &Game, target: PlayerReference, confused: bool, roll_a: u8, roll_b: u8) -> (r: (u8, u8))
        requires
            game_ok(*game),
            valid_player(*game, target),
        ensures
            r == supervisor_counts(*game, target, confused, roll_a, roll_b),
    {
        let n: usize = game.players.len();
        let nv = visitors_of(game, target).len();
        let nd = game.players[target.index as usize].night_visits.len();
        let mut visitors: u8 = if nv > 255 { 255 } else { nv as u8 };
        let mut visited: u8 = if nd > 255 { 255 } else { nd as u8 };
        if confused && roll_a == 1 {
            let up = if visitors < 255 { visitors + 1 } else { 255 };
            visitors = if (up as usize) <= n { up } else { n as u8 };
        } else if confused && roll_a == 2 {
            let down = if visitors > 0 { visitors - 1 } else { 0 };
            visitors = if down <= 1 { down } else { 1 };
        }
        if confused && roll_b == 1 {
            let up = if visited < 255 { visited + 1 } else { 255 };
            visited = if (up as usize) <= n { up } else { n as u8 };
        } else if confused && (roll_b == 2 || roll_b == 3) {
            visited = if visited > 0 { visited - 1 } else { 0 };
        }
        (visited, visitors)
    }

    /// At the investigative step a supervisor whose ability works counts,
    /// for the player it visits, how many visited them and how many they
    /// visited; a confused one gets the counts shifted by random rolls.
    pub fn do_night_action(&self, game: &Game, actor_ref: PlayerReference, priority: Priority) -> (r: Vec<Effect>)
        requires
            game_ok(*game),
            visits_ok(*game),
            valid_player(*game, actor_ref),
        ensures
            ({
                let works = !data(*game, actor_ref).night_blocked && !data(*game, actor_ref).ability_deactivated_from_death
                    && priority == Priority::Investigative && spec_first_visit(*game, actor_ref) is Some;
                &&& works ==> exists|roll_a: u8, roll_b: u8|
                    roll_a < 3 && roll_b < 4 && r@ == seq![
                        Effect::NightMessage {
                            to: actor_ref,
                            message: ChatMessageVariant::SupervisorResult {
                                visited: supervisor_counts(*game, spec_first_visit(*game, actor_ref)->0.target, data(*game, actor_ref).confused, roll_a, roll_b).0,
                                visitors: supervisor_counts(*game, spec_first_visit(*game, actor_ref)->0.target, data(*game, actor_ref).confused, roll_a, roll_b).1,
                            },
                        },
                    ]
                &&& !works ==> r@.len() == 0
            }),
    {
        let d = &game.players[actor_ref.index as usize];
        if d.night_blocked || d.ability_deactivated_from_death || priority != Priority::Investigative {
            return Vec::new();
        }
        let v = match first_visit(game, actor_ref) {
            Some(v) => v,
            None => return Vec::new(),
        };
        assert(valid_player(*game, visits_of(*game, actor_ref)[0].target));
        let confused = d.confused;
        let roll_a = if confused { random_range(0, 3) } else { 0 };
        let roll_b = if confused { random_range(0, 4) } else { 0 };
        let (visited, visitors) = Supervisor::counts(game, v.target, confused, roll_a, roll_b);
        vec![Effect::NightMessage { to: actor_ref, message: ChatMessageVariant::SupervisorResult { visited, visitors } }]
    }

    /// The supervisor picks another player at night, insiders allowed.
    pub fn controller_parameters_map(&self, game: &Game, actor_ref: PlayerReference) -> (r: ControllerParameters)
        ensures
            r.id == ControllerID::role(actor_ref, Role::Supervisor, 0),
            r.available == (AvailableAbilitySelection::SinglePlayerTypical {
                can_select_self: false,
                can_select_insiders: true,
            }),
            r.night_typical,
            !r.grayed_out,
    {
        ControllerParameters {
            id: ControllerID::role(actor_ref, Role::Supervisor, 0),
            available: AvailableAbilitySelection::SinglePlayerTypical {
                can_select_self: false,
                can_select_insiders: true,
            },
            grayed_out: false,
            night_typical: true,
            reset_on_phase_start: None,
            dont_save: false,
            default_selection: None,
            allowed_players: vec![actor_ref],
        }
    }

    pub fn convert_selection_to_visits(&self, game: &Game, actor_ref: PlayerReference) -> (r: Vec<Visit>)
        ensures
            r@ == selection_visits(*game, actor_ref, Role::Supervisor, 0, false),
    {
        convert_controller_selection_to_visits(game, actor_ref, Role::Supervisor, 0, false)
    }
}

} // verus!

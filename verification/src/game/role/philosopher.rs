//! The philosopher: learns whether two players are enemies.

use vstd::prelude::*;
use crate::game::{Game, data, valid_player, game_ok, filtered, filter_players};
use crate::game::player::PlayerReference;
use crate::game::chat::ChatMessageVariant;
use crate::game::effect::Effect;
use crate::game::game_conclusion::GameConclusion;
use crate::game::visit::Visit;
use crate::game::ability_input::{ControllerID, ControllerParameters, AvailableAbilitySelection};
use super::{Role, Priority};
use super::common_role::{visits_of, visits_ok, selection_visits, convert_controller_selection_to_visits};

verus! {

#[derive(Clone, Copy, Debug, Default)]
pub struct Philosopher;

/// Whether two players win together: a player who wins on their own role's
/// terms is everyone's friend; two with lists of conclusions are friends
/// when the lists share one.
pub open spec fn are_friends(game: Game, a: PlayerReference, b: PlayerReference) -> bool {
    !data(game, a).win_condition_is_conclusion_list || !data(game, b).win_condition_is_conclusion_list || exists|c: GameConclusion|
        data(game, a).win_conclusions@.contains(c) && data(game, b).win_conclusions@.contains(c)
}

/// A suspicious aura makes the pair enemies, else an innocent aura makes them
/// not, else they are enemies unless they win together.
pub open spec fn spec_players_are_enemies(game: Game, a: PlayerReference, b: PlayerReference) -> bool {
    if data(game, a).has_suspicious_aura || data(game, b).has_suspicious_aura {
        true
    } else if data(game, a).has_innocent_aura || data(game, b).has_innocent_aura {
        false
    } else {
        !are_friends(game, a, b)
    }
}

fn conclusions_meet(a: &Vec<GameConclusion>, b: &Vec<GameConclusion>) -> (r: bool)
    ensures
        r == exists|c: GameConclusion| a@.contains(c) && b@.contains(c),
{
    let mut i: usize = 0;
    while i < a.len()
        invariant
            i <= a@.len(),
            forall|j: int| 0 <= j < i ==> !b@.contains(#[trigger] a@[j]),
        decreases a@.len() - i,
    {
        let c = a[i];
        let mut k: usize = 0;
        while k < b.len()
            invariant
                k <= b@.len(),
                i < a@.len(),
                c == a@[i as int],
                forall|j: int| 0 <= j < k ==> b@[j] != c,
            decreases b@.len() - k,
        {
            if b[k] == c {
                assert(a@.contains(c) && b@.contains(c)) by {
                    assert(a@[i as int] == c);
                    assert(b@[k as int] == c);
                }
                return true;
            }
            k = k + 1;
        }
        assert(!b@.contains(a@[i as int]));
        i = i + 1;
    }
    assert forall|c: GameConclusion| !(a@.contains(c) && b@.contains(c)) by {
        if a@.contains(c) {
            let j = choose|j: int| 0 <= j < a@.len() && a@[j] == c;
            assert(!b@.contains(a@[j]));
        }
    }
    false
}

impl Philosopher {
    pub fn players_are_enemies(game: &Game, a: PlayerReference, b: PlayerReference) -> (r: bool)
        requires
            valid_player(*game, a),
            valid_player(*game, b),
        ensures
            r == spec_players_are_enemies(*game, a, b),
    {
        let da = &game.players[a.index as usize];
        let db = &game.players[b.index as usize];
        if da.has_suspicious_aura || db.has_suspicious_aura {
            true
        } else if da.has_innocent_aura || db.has_innocent_aura {
            false
        } else {
            !(!da.win_condition_is_conclusion_list || !db.win_condition_is_conclusion_list
                || conclusions_meet(&da.win_conclusions, &db.win_conclusions))
        }
    }

    /// Whether `a` and `b` do not win together.
    pub fn players_are_enemies_plain(game: &Game, a: PlayerReference, b: PlayerReference) -> (r: bool)
        requires
            valid_player(*game, a),
            valid_player(*game, b),
        ensures
            r == !are_friends(*game, a, b),
    {
        let da = &game.players[a.index as usize];
        let db = &game.players[b.index as usize];
        !(!da.win_condition_is_conclusion_list || !db.win_condition_is_conclusion_list
            || conclusions_meet(&da.win_conclusions, &db.win_conclusions))
    }

    /// A confused philosopher hears "enemies" when exactly one of the two
    /// reads as suspicious to the confused.
    pub fn players_are_enemies_confused(game: &Game, a: PlayerReference, b: PlayerReference, actor_ref: PlayerReference) -> (r: bool)
        requires
            valid_player(*game, a),
            valid_player(*game, b),
        ensures
            r == (data(*game, a).suspicious_to_confused != data(*game, b).suspicious_to_confused),
    {
        game.players[a.index as usize].suspicious_to_confused != game.players[b.index as usize].suspicious_to_confused
    }

    /// At the investigative step, with two visits made, the philosopher
    /// learns whether their targets are enemies: never for the same player
    /// twice, and as a confused philosopher reads them when confused.
    pub fn do_night_action(&self, game: &Game, actor_ref: PlayerReference, priority: Priority) -> (r: Vec<Effect>)
        requires
            visits_ok(*game),
            valid_player(*game, actor_ref),
        ensures
            r@ == if priority == Priority::Investigative && visits_of(*game, actor_ref).len() >= 2 {
                let a = visits_of(*game, actor_ref)[0].target;
                let b = visits_of(*game, actor_ref)[1].target;
                let enemies = if a == b {
                    false
                } else if data(*game, actor_ref).confused {
                    data(*game, a).suspicious_to_confused != data(*game, b).suspicious_to_confused
                } else {
                    spec_players_are_enemies(*game, a, b)
                };
                seq![Effect::NightMessage { to: actor_ref, message: ChatMessageVariant::PhilosopherResult { enemies } }]
            } else {
                Seq::empty()
            },
    {
        let mut out: Vec<Effect> = Vec::new();
        let vs = &game.players[actor_ref.index as usize].night_visits;
        if priority != Priority::Investigative || vs.len() < 2 {
            return out;
        }
        let a = vs[0].target;
        let b = vs[1].target;
        assert(valid_player(*game, visits_of(*game, actor_ref)[0].target));
        assert(valid_player(*game, visits_of(*game, actor_ref)[1].target));
        let enemies = if a == b {
            false
        } else if game.players[actor_ref.index as usize].confused {
            Philosopher::players_are_enemies_confused(game, a, b, actor_ref)
        } else {
            Philosopher::players_are_enemies(game, a, b)
        };
        out.push(Effect::NightMessage { to: actor_ref, message: ChatMessageVariant::PhilosopherResult { enemies } });
        out
    }

    /// Two other living players, or none, without repeats, at night.
    pub fn controller_parameters_map(&self, game: &Game, actor_ref: PlayerReference) -> (r: ControllerParameters)
        requires
            game_ok(*game),
        ensures
            r.id == ControllerID::role(actor_ref, Role::Philosopher, 0),
            r.available matches AvailableAbilitySelection::TwoPlayerOption {
                available_first_players,
                available_second_players,
                can_choose_duplicates,
                can_choose_none,
            } && available_first_players@ == filtered(*game, (Some(true), seq![actor_ref], None))
                && available_second_players@ == available_first_players@ && !can_choose_duplicates && can_choose_none,
            r.night_typical,
            !r.grayed_out,
    {
        let exclude = vec![actor_ref];
        let first = filter_players(game, Some(true), &exclude, None);
        let second = filter_players(game, Some(true), &exclude, None);
        proof {
            assert(exclude@ =~= seq![actor_ref]);
        }
        ControllerParameters {
            id: ControllerID::role(actor_ref, Role::Philosopher, 0),
            available: AvailableAbilitySelection::TwoPlayerOption {
                available_first_players: first,
                available_second_players: second,
                can_choose_duplicates: false,
                can_choose_none: true,
            },
            grayed_out: false,
            night_typical: true,
            reset_on_phase_start: None,
            dont_save: false,
            default_selection: None,
            allowed_players: vec![actor_ref],
        }
    }

    pub fn convert_selection_to_visits(&self, game: &Game, actor_ref: PlayerReference) -> (r: Vec<Visit>)
        ensures
            r@ == selection_visits(*game, actor_ref, Role::Philosopher, 0, false),
    {
        convert_controller_selection_to_visits(game, actor_ref, Role::Philosopher, 0, false)
    }
}

} // verus!

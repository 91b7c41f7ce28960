//! The psychic: on odd nights names two players of whom it or its target
//! holds an evil one; on even nights names a player of whom it or its target
//! is good.

use vstd::prelude::*;
use crate::game::{Game, data, valid_player, game_ok, filtered, filter_players};
use crate::game::player::PlayerReference;
use crate::game::chat::ChatMessageVariant;
use crate::game::effect::Effect;
use crate::game::visit::Visit;
use crate::game::ability_input::{ControllerID, ControllerParameters, AvailableAbilitySelection};
use crate::random::shuffle;
use super::{Role, OnMidnightPriority};
use super::common_role::{spec_first_visit, first_visit, visits_ok, selection_visits, convert_controller_selection_to_visits};

verus! {

#[derive(Clone, Copy, Debug, Default)]
pub struct Psychic;

/// A player is evil unless loyal to the town.
pub open spec fn evil(game: Game, p: PlayerReference) -> bool {
    !data(game, p).loyalist_for_town
}

/// The living players other than the psychic and its target, in index order.
pub open spec fn valid_players(game: Game, actor: PlayerReference, target: PlayerReference) -> Seq<PlayerReference> {
    filtered(game, (Some(true), seq![actor, target], None))
}

pub open spec fn evil_candidates(game: Game, actor: PlayerReference, target: PlayerReference) -> Seq<PlayerReference> {
    valid_players(game, actor, target).filter(|p: PlayerReference| !data(game, p).has_innocent_aura)
}

pub open spec fn good_candidates(game: Game, actor: PlayerReference, target: PlayerReference) -> Seq<PlayerReference> {
    valid_players(game, actor, target).filter(|p: PlayerReference| !data(game, p).has_suspicious_aura)
}

/// Whether naming the pair works: the psychic is confused, or the target or
/// one of the two is evil.
pub open spec fn evil_pair_ok(game: Game, target: PlayerReference, confused: bool, a: PlayerReference, b: PlayerReference) -> bool {
    confused || evil(game, target) || evil(game, a) || evil(game, b)
}

/// The first partner `s[j]`, `j` from `j0` on, that works with `s[i]`.
pub open spec fn search_partner(game: Game, target: PlayerReference, confused: bool, s: Seq<PlayerReference>, i: int, j: int) -> Option<(PlayerReference, PlayerReference)>
    decreases s.len() - j,
{
    if j >= s.len() || j < 0 {
        None
    } else if evil_pair_ok(game, target, confused, s[i], s[j]) {
        Some((s[i], s[j]))
    } else {
        search_partner(game, target, confused, s, i, j + 1)
    }
}

/// The first working pair of `s` in the order (0, 1), (0, 2), ..., (1, 2), ...,
/// with the first index from `i` on.
pub open spec fn search_pair(game: Game, target: PlayerReference, confused: bool, s: Seq<PlayerReference>, i: int) -> Option<(PlayerReference, PlayerReference)>
    decreases s.len() - i,
{
    if i >= s.len() || i < 0 {
        None
    } else {
        match search_partner(game, target, confused, s, i, i + 1) {
            Some(p) => Some(p),
            None => search_pair(game, target, confused, s, i + 1),
        }
    }
}

/// The evil reading for the candidates in the order `s`.
pub open spec fn evil_result(game: Game, target: PlayerReference, confused: bool, s: Seq<PlayerReference>) -> ChatMessageVariant {
    match search_pair(game, target, confused, s, 0) {
        Some(pair) => ChatMessageVariant::PsychicEvil { first: pair.0, second: pair.1 },
        None => ChatMessageVariant::PsychicFailed,
    }
}

/// The first player of `s` from `i` on who works for the good reading.
pub open spec fn search_good(game: Game, target: PlayerReference, confused: bool, s: Seq<PlayerReference>, i: int) -> Option<PlayerReference>
    decreases s.len() - i,
{
    if i >= s.len() || i < 0 {
        None
    } else if confused || !evil(game, target) || !evil(game, s[i]) {
        Some(s[i])
    } else {
        search_good(game, target, confused, s, i + 1)
    }
}

pub open spec fn good_result(game: Game, target: PlayerReference, confused: bool, s: Seq<PlayerReference>) -> ChatMessageVariant {
    match search_good(game, target, confused, s, 0) {
        Some(p) => ChatMessageVariant::PsychicGood { player: p },
        None => ChatMessageVariant::PsychicFailed,
    }
}

fn is_evil(game: &Game, p: PlayerReference) -> (r: bool)
    requires
        valid_player(*game, p),
    ensures
        r == evil(*game, p),
{
    !game.players[p.index as usize].loyalist_for_town
}

fn keep_candidates(game: &Game, ps: &Vec<PlayerReference>, evil_reading: bool) -> (r: Vec<PlayerReference>)
    requires
        forall|j: int| 0 <= j < ps@.len() ==> valid_player(*game, #[trigger] ps@[j]),
    ensures
        evil_reading ==> r@ == ps@.filter(|p: PlayerReference| !data(*game, p).has_innocent_aura),
        !evil_reading ==> r@ == ps@.filter(|p: PlayerReference| !data(*game, p).has_suspicious_aura),
        forall|j: int| 0 <= j < r@.len() ==> valid_player(*game, #[trigger] r@[j]),
{
    let ghost pe = |p: PlayerReference| !data(*game, p).has_innocent_aura;
    let ghost pg = |p: PlayerReference| !data(*game, p).has_suspicious_aura;
    let mut out: Vec<PlayerReference> = Vec::new();
    let mut i: usize = 0;
    while i < ps.len()
        invariant
            i <= ps@.len(),
            forall|j: int| 0 <= j < ps@.len() ==> valid_player(*game, #[trigger] ps@[j]),
            pe == (|p: PlayerReference| !data(*game, p).has_innocent_aura),
            pg == (|p: PlayerReference| !data(*game, p).has_suspicious_aura),
            evil_reading ==> out@ == ps@.take(i as int).filter(pe),
            !evil_reading ==> out@ == ps@.take(i as int).filter(pg),
            forall|j: int| 0 <= j < out@.len() ==> valid_player(*game, #[trigger] out@[j]),
        decreases ps@.len() - i,
    {
        let p = ps[i];
        let d = &game.players[p.index as usize];
        let keep = if evil_reading {
            !d.has_innocent_aura
        } else {
            !d.has_suspicious_aura
        };
        if keep {
            out.push(p);
        }
        proof {
            reveal_with_fuel(Seq::filter, 1);
            let t1 = ps@.take(i as int + 1);
            assert(t1.drop_last() =~= ps@.take(i as int));
            assert(t1.last() == p);
        }
        i = i + 1;
    }
    proof {
        assert(ps@.take(i as int) =~= ps@);
    }
    out
}

impl Psychic {
    /// The living players other than the psychic and its target.
    pub fn get_valid_players(game: &Game, actor_ref: PlayerReference, target: PlayerReference) -> (r: Vec<PlayerReference>)
        requires
            game_ok(*game),
        ensures
            r@ == valid_players(*game, actor_ref, target),
            forall|j: int| 0 <= j < r@.len() ==> valid_player(*game, #[trigger] r@[j]),
    {
        let exclude = vec![actor_ref, target];
        let r = filter_players(game, Some(true), &exclude, None);
        proof {
            assert(exclude@ =~= seq![actor_ref, target]);
            assert forall|j: int| 0 <= j < r@.len() implies valid_player(*game, #[trigger] r@[j]) by {
                crate::game::lemma_filtered_contains(*game, (Some(true), seq![actor_ref, target], None), game.players@.len() as int, r@[j]);
            }
        }
        r
    }

    pub fn player_is_evil(game: &Game, player_ref: PlayerReference) -> (r: bool)
        requires
            valid_player(*game, player_ref),
        ensures
            r == evil(*game, player_ref),
    {
        is_evil(game, player_ref)
    }

    pub fn contains_evil(game: &Game, target: PlayerReference, a: PlayerReference, b: PlayerReference) -> (r: bool)
        requires
            valid_player(*game, target),
            valid_player(*game, a),
            valid_player(*game, b),
        ensures
            r == (evil(*game, target) || evil(*game, a) || evil(*game, b)),
    {
        is_evil(game, target) || is_evil(game, a) || is_evil(game, b)
    }

    pub fn contains_good(game: &Game, target: PlayerReference, player: PlayerReference) -> (r: bool)
        requires
            valid_player(*game, target),
            valid_player(*game, player),
        ensures
            r == (!evil(*game, target) || !evil(*game, player)),
    {
        !is_evil(game, target) || !is_evil(game, player)
    }

    /// The evil reading for the candidates in the order given: the first
    /// working pair, else a failure.
    pub fn evil_result_for(game: &Game, target: PlayerReference, confused: bool, order: &Vec<PlayerReference>) -> (r: ChatMessageVariant)
        requires
            valid_player(*game, target),
            forall|j: int| 0 <= j < order@.len() ==> valid_player(*game, #[trigger] order@[j]),
        ensures
            r == evil_result(*game, target, confused, order@),
    {
        let s = order;
        let mut i: usize = 0;
        while i < s.len()
            invariant
                i <= s@.len(),
                s@ == order@,
                valid_player(*game, target),
                forall|j: int| 0 <= j < s@.len() ==> valid_player(*game, #[trigger] s@[j]),
                search_pair(*game, target, confused, s@, 0) == search_pair(*game, target, confused, s@, i as int),
            decreases s@.len() - i,
        {
            let mut j: usize = i + 1;
            while j < s.len()
                invariant
                    i < s@.len(),
                    s@ == order@,
                    i + 1 <= j <= s@.len(),
                    valid_player(*game, target),
                    forall|k: int| 0 <= k < s@.len() ==> valid_player(*game, #[trigger] s@[k]),
                    search_pair(*game, target, confused, s@, 0) == search_pair(*game, target, confused, s@, i as int),
                    search_partner(*game, target, confused, s@, i as int, i as int + 1) == search_partner(
                        *game,
                        target,
                        confused,
                        s@,
                        i as int,
                        j as int,
                    ),
                decreases s@.len() - j,
            {
                if confused || Psychic::contains_evil(game, target, s[i], s[j]) {
                    proof {
                        assert(search_partner(*game, target, confused, s@, i as int, j as int) == Some((s@[i as int], s@[j as int])));
                        assert(search_pair(*game, target, confused, s@, i as int) == Some((s@[i as int], s@[j as int])));
                    }
                    return ChatMessageVariant::PsychicEvil { first: s[i], second: s[j] };
                }
                j = j + 1;
            }
            proof {
                assert(search_partner(*game, target, confused, s@, i as int, j as int) is None);
                assert(search_pair(*game, target, confused, s@, i as int) == search_pair(*game, target, confused, s@, i as int + 1));
            }
            i = i + 1;
        }
        ChatMessageVariant::PsychicFailed
    }

    /// The good reading for the candidates in the order given: the first who
    /// works, else a failure.
    pub fn good_result_for(game: &Game, target: PlayerReference, confused: bool, order: &Vec<PlayerReference>) -> (r: ChatMessageVariant)
        requires
            valid_player(*game, target),
            forall|j: int| 0 <= j < order@.len() ==> valid_player(*game, #[trigger] order@[j]),
        ensures
            r == good_result(*game, target, confused, order@),
    {
        let mut i: usize = 0;
        while i < order.len()
            invariant
                i <= order@.len(),
                valid_player(*game, target),
                forall|j: int| 0 <= j < order@.len() ==> valid_player(*game, #[trigger] order@[j]),
                search_good(*game, target, confused, order@, 0) == search_good(*game, target, confused, order@, i as int),
            decreases order@.len() - i,
        {
            if confused || Psychic::contains_good(game, target, order[i]) {
                assert(search_good(*game, target, confused, order@, i as int) == Some(order@[i as int]));
                return ChatMessageVariant::PsychicGood { player: order[i] };
            }
            i = i + 1;
        }
        ChatMessageVariant::PsychicFailed
    }

    /// The evil reading with the candidates (living others without an
    /// innocent aura) in a random order.
    pub fn get_result_evil(game: &Game, actor_ref: PlayerReference, target: PlayerReference, confused: bool) -> (r: ChatMessageVariant)
        requires
            game_ok(*game),
            valid_player(*game, target),
        ensures
            exists|order: Seq<PlayerReference>|
                order.to_multiset() == evil_candidates(*game, actor_ref, target).to_multiset() && r == evil_result(
                    *game,
                    target,
                    confused,
                    order,
                ),
    {
        let valid = Psychic::get_valid_players(game, actor_ref, target);
        let mut order = keep_candidates(game, &valid, true);
        let ghost before = order@;
        shuffle(&mut order);
        proof {
            broadcast use vstd::seq_lib::group_to_multiset_ensures;
            assert forall|j: int| 0 <= j < order@.len() implies valid_player(*game, #[trigger] order@[j]) by {
                assert(order@.to_multiset().count(order@[j]) > 0);
                assert(before.to_multiset().count(order@[j]) > 0);
                assert(before.contains(order@[j]));
            }
        }
        let r = Psychic::evil_result_for(game, target, confused, &order);
        assert(order@.to_multiset() == evil_candidates(*game, actor_ref, target).to_multiset());
        r
    }

    /// The good reading with the candidates (living others without a
    /// suspicious aura) in a random order.
    pub fn get_result_good(game: &Game, actor_ref: PlayerReference, target: PlayerReference, confused: bool) -> (r: ChatMessageVariant)
        requires
            game_ok(*game),
            valid_player(*game, target),
        ensures
            exists|order: Seq<PlayerReference>|
                order.to_multiset() == good_candidates(*game, actor_ref, target).to_multiset() && r == good_result(
                    *game,
                    target,
                    confused,
                    order,
                ),
    {
        let valid = Psychic::get_valid_players(game, actor_ref, target);
        let mut order = keep_candidates(game, &valid, false);
        let ghost before = order@;
        shuffle(&mut order);
        proof {
            broadcast use vstd::seq_lib::group_to_multiset_ensures;
            assert forall|j: int| 0 <= j < order@.len() implies valid_player(*game, #[trigger] order@[j]) by {
                assert(order@.to_multiset().count(order@[j]) > 0);
                assert(before.to_multiset().count(order@[j]) > 0);
                assert(before.contains(order@[j]));
            }
        }
        let r = Psychic::good_result_for(game, target, confused, &order);
        assert(order@.to_multiset() == good_candidates(*game, actor_ref, target).to_multiset());
        r
    }

    /// At the investigative step the psychic reads the player it visits:
    /// the evil reading on odd days, the good one on even days.
    pub fn on_midnight(&self, game: &Game, actor_ref: PlayerReference, priority: OnMidnightPriority) -> (r: Vec<Effect>)
        requires
            game_ok(*game),
            visits_ok(*game),
            valid_player(*game, actor_ref),
        ensures
            priority == OnMidnightPriority::Investigative && spec_first_visit(*game, actor_ref) is Some ==> {
                let target = spec_first_visit(*game, actor_ref)->0.target;
                let confused = data(*game, actor_ref).confused;
                r@.len() == 1 && exists|order: Seq<PlayerReference>, m: ChatMessageVariant|
                    r@[0] == (Effect::NightMessage { to: actor_ref, message: m }) && if game.day_number % 2 == 1 {
                        order.to_multiset() == evil_candidates(*game, actor_ref, target).to_multiset() && m == evil_result(
                            *game,
                            target,
                            confused,
                            order,
                        )
                    } else {
                        order.to_multiset() == good_candidates(*game, actor_ref, target).to_multiset() && m == good_result(
                            *game,
                            target,
                            confused,
                            order,
                        )
                    }
            },
            !(priority == OnMidnightPriority::Investigative && spec_first_visit(*game, actor_ref) is Some) ==> r@.len() == 0,
    {
        let mut out: Vec<Effect> = Vec::new();
        if priority != OnMidnightPriority::Investigative {
            return out;
        }
        let v = match first_visit(game, actor_ref) {
            Some(v) => v,
            None => return out,
        };
        assert(valid_player(*game, visits_of_first(game, actor_ref)));
        let confused = game.players[actor_ref.index as usize].confused;
        let m = if game.day_number % 2 == 1 {
            Psychic::get_result_evil(game, actor_ref, v.target, confused)
        } else {
            Psychic::get_result_good(game, actor_ref, v.target, confused)
        };
        out.push(Effect::NightMessage { to: actor_ref, message: m });
        out
    }

    /// The psychic picks another player at night, insiders allowed.
    pub fn controller_parameters_map(&self, game: &Game, actor_ref: PlayerReference) -> (r: ControllerParameters)
        ensures
            r.id == ControllerID::role(actor_ref, Role::Psychic, 0),
            r.available == (AvailableAbilitySelection::SinglePlayerTypical {
                can_select_self: false,
                can_select_insiders: true,
            }),
            r.night_typical,
            !r.grayed_out,
    {
        ControllerParameters {
            id: ControllerID::role(actor_ref, Role::Psychic, 0),
            available: AvailableAbilitySelection::SinglePlayerTypical {
                can_select_self: false,
                can_select_insiders: true,
            },
            grayed_out: false,
            night_typical: true,
            reset_on_phase_start: None,
            dont_save: false,
            default_selection: None,
            allowed_players: vec![actor_ref],
        }
    }

    pub fn convert_selection_to_visits(&self, game: &Game, actor_ref: PlayerReference) -> (r: Vec<Visit>)
        ensures
            r@ == selection_visits(*game, actor_ref, Role::Psychic, 0, false),
    {
        convert_controller_selection_to_visits(game, actor_ref, Role::Psychic, 0, false)
    }
}

/// The target of the first visit of `p`.
pub open spec fn visits_of_first(game: &Game, p: PlayerReference) -> PlayerReference {
    spec_first_visit(*game, p)->0.target
}

} // verus!

//! What many roles read of the night: who visited whom.

use vstd::prelude::*;
use crate::game::{Game, data, valid_player, game_ok};
use crate::game::player::{PlayerIndex, PlayerReference};
use crate::game::visit::Visit;
use crate::game::ability_input::{saved_player_list, get_player_list_selection, ControllerID};
use crate::game::role::Role;
use crate::game::role_list::{RoleSet, role_set_roles};

verus! {

/// The visits `p`'s role made tonight, in the order it made them.
pub open spec fn visits_of(game: Game, p: PlayerReference) -> Seq<Visit> {
    data(game, p).night_visits@
}

/// Whether every visit of tonight lands on a player of the game.
pub open spec fn visits_ok(game: Game) -> bool {
    forall|p: PlayerReference, i: int|
        valid_player(game, p) && 0 <= i < visits_of(game, p).len() ==> valid_player(
            game,
            #[trigger] visits_of(game, p)[i].target,
        )
}

/// The first visit `p`'s role made tonight.
pub open spec fn spec_first_visit(game: Game, p: PlayerReference) -> Option<Visit> {
    if visits_of(game, p).len() > 0 {
        Some(visits_of(game, p)[0])
    } else {
        None
    }
}

pub fn first_visit(game: &Game, p: PlayerReference) -> (r: Option<Visit>)
    requires
        valid_player(*game, p),
    ensures
        r == spec_first_visit(*game, p),
{
    let v = &game.players[p.index as usize].night_visits;
    if v.len() > 0 {
        Some(v[0])
    } else {
        None
    }
}

/// The targets of `p`'s visits tonight, in order.
pub open spec fn visit_targets(game: Game, p: PlayerReference) -> Seq<PlayerReference> {
    visits_of(game, p).map_values(|v: Visit| v.target)
}

pub fn night_targets(game: &Game, p: PlayerReference) -> (r: Vec<PlayerReference>)
    requires
        valid_player(*game, p),
    ensures
        r@ == visit_targets(*game, p),
{
    let v = &game.players[p.index as usize].night_visits;
    let mut out: Vec<PlayerReference> = Vec::new();
    let mut i: usize = 0;
    while i < v.len()
        invariant
            i <= v@.len(),
            v@ == visits_of(*game, p),
            out@ =~= visit_targets(*game, p).take(i as int),
        decreases v@.len() - i,
    {
        out.push(v[i].target);
        i = i + 1;
    }
    out
}

/// Whether `p` visited `target` tonight.
pub open spec fn visited(game: Game, p: PlayerReference, target: PlayerReference) -> bool {
    visit_targets(game, p).contains(target)
}

pub fn did_visit(game: &Game, p: PlayerReference, target: PlayerReference) -> (r: bool)
    requires
        valid_player(*game, p),
    ensures
        r == visited(*game, p, target),
{
    let v = &game.players[p.index as usize].night_visits;
    let mut i: usize = 0;
    while i < v.len()
        invariant
            i <= v@.len(),
            v@ == visits_of(*game, p),
            forall|j: int| 0 <= j < i ==> v@[j].target != target,
        decreases v@.len() - i,
    {
        if v[i].target == target {
            assert(visit_targets(*game, p)[i as int] == target);
            return true;
        }
        i = i + 1;
    }
    assert forall|j: int| 0 <= j < visit_targets(*game, p).len() implies visit_targets(*game, p)[j]
        != target by {
        assert(visit_targets(*game, p)[j] == v@[j].target);
    }
    false
}

/// The players among the first `n` who visited `target` tonight, in index order.
pub open spec fn visitors_upto(game: Game, target: PlayerReference, n: int) -> Seq<PlayerReference>
    decreases n,
{
    if n <= 0 {
        Seq::empty()
    } else {
        let before = visitors_upto(game, target, n - 1);
        let p = PlayerReference { index: (n - 1) as u8 };
        if visited(game, p, target) {
            before.push(p)
        } else {
            before
        }
    }
}

/// The players who visited `target` tonight, in index order.
pub open spec fn visitors(game: Game, target: PlayerReference) -> Seq<PlayerReference> {
    visitors_upto(game, target, game.players@.len() as int)
}

pub fn visitors_of(game: &Game, target: PlayerReference) -> (r: Vec<PlayerReference>)
    requires
        game_ok(*game),
    ensures
        r@ == visitors(*game, target),
{
    let mut out: Vec<PlayerReference> = Vec::new();
    let mut i: usize = 0;
    while i < game.players.len()
        invariant
            i <= game.players@.len(),
            game_ok(*game),
            out@ == visitors_upto(*game, target, i as int),
        decreases game.players@.len() - i,
    {
        let p = PlayerReference { index: i as u8 };
        if did_visit(game, p, target) {
            out.push(p);
        }
        i = i + 1;
    }
    out
}

/// The visits a saved player list for the controller `(role, id)` of
/// `actor` makes: one to each listed player, in order.
pub open spec fn selection_visits(game: Game, actor: PlayerReference, role: Role, id: u8, attack: bool) -> Seq<Visit> {
    match saved_player_list(game, ControllerID::Role { player: actor, role, id }) {
        Some(list) => list.map_values(|t: PlayerReference| Visit { visitor: actor, target: t, attack, role, id }),
        None => Seq::empty(),
    }
}

pub fn convert_controller_selection_to_visits(
    game: &Game,
    actor: PlayerReference,
    role: Role,
    id: u8,
    attack: bool,
) -> (r: Vec<Visit>)
    ensures
        r@ == selection_visits(*game, actor, role, id, attack),
{
    let mut out: Vec<Visit> = Vec::new();
    match get_player_list_selection(game, ControllerID::Role { player: actor, role, id }) {
        Some(list) => {
            let mut i: usize = 0;
            while i < list.len()
                invariant
                    i <= list@.len(),
                    out@ =~= list@.map_values(|t: PlayerReference| Visit { visitor: actor, target: t, attack, role, id }).take(i as int),
                decreases list@.len() - i,
            {
                out.push(Visit { visitor: actor, target: list[i], attack, role, id });
                i = i + 1;
            }
            proof {
                assert(list@.map_values(|t: PlayerReference| Visit { visitor: actor, target: t, attack, role, id }).take(i as int) =~= list@.map_values(|t: PlayerReference| Visit { visitor: actor, target: t, attack, role, id }));
            }
        },
        None => {},
    }
    out
}

/// Every visit made tonight: player by player in index order, each player's
/// visits in the order made, among the first `n` players.
pub open spec fn all_visits_upto(game: Game, n: int) -> Seq<Visit>
    decreases n,
{
    if n <= 0 {
        Seq::empty()
    } else {
        all_visits_upto(game, n - 1) + visits_of(game, PlayerReference { index: (n - 1) as u8 })
    }
}

pub open spec fn all_visits(game: Game) -> Seq<Visit> {
    all_visits_upto(game, game.players@.len() as int)
}

pub fn all_night_visits(game: &Game) -> (r: Vec<Visit>)
    requires
        game_ok(*game),
    ensures
        r@ == all_visits(*game),
{
    let mut out: Vec<Visit> = Vec::new();
    let mut i: usize = 0;
    while i < game.players.len()
        invariant
            i <= game.players@.len(),
            game_ok(*game),
            out@ == all_visits_upto(*game, i as int),
        decreases game.players@.len() - i,
    {
        let v = &game.players[i].night_visits;
        let ghost start = out@;
        let mut j: usize = 0;
        while j < v.len()
            invariant
                j <= v@.len(),
                v@ == visits_of(*game, PlayerReference { index: i as u8 }),
                out@ =~= start + v@.take(j as int),
            decreases v@.len() - j,
        {
            out.push(v[j]);
            j = j + 1;
        }
        proof {
            assert(v@.take(j as int) =~= v@);
        }
        i = i + 1;
    }
    out
}

/// The indices of the players `p` visited tonight, in order; none for a
/// player the game does not hold.
pub open spec fn target_indices(game: Game, p: PlayerReference) -> Seq<PlayerIndex> {
    if valid_player(game, p) {
        visits_of(game, p).map_values(|v: Visit| v.target.index)
    } else {
        Seq::empty()
    }
}

pub fn visited_indices(game: &Game, p: PlayerReference) -> (r: Vec<PlayerIndex>)
    ensures
        r@ == target_indices(*game, p),
{
    let mut out: Vec<PlayerIndex> = Vec::new();
    if (p.index as usize) >= game.players.len() {
        return out;
    }
    let v = &game.players[p.index as usize].night_visits;
    let mut i: usize = 0;
    while i < v.len()
        invariant
            i <= v@.len(),
            valid_player(*game, p),
            v@ == visits_of(*game, p),
            out@ =~= v@.map_values(|x: Visit| x.target.index).take(i as int),
        decreases v@.len() - i,
    {
        out.push(v[i].target.index);
        i = i + 1;
    }
    proof {
        assert(v@.map_values(|x: Visit| x.target.index).take(i as int) =~= v@.map_values(|x: Visit| x.target.index));
    }
    out
}

/// The roles of `set` that the game enabled, except `except`, in the set's order.
pub open spec fn enabled_candidates(game: Game, set: RoleSet, except: Role) -> Seq<Role> {
    role_set_roles(set).filter(|r: Role| is_candidate(game, except, r))
}

pub open spec fn is_candidate(game: Game, except: Role, r: Role) -> bool {
    game.settings.enabled_roles@.contains(r) && r != except
}

pub fn enabled_roles_of(game: &Game, set: RoleSet, except: Role) -> (r: Vec<Role>)
    ensures
        r@ == enabled_candidates(*game, set, except),
{
    let roles = set.get_roles();
    let v = roles.as_vec();
    let ghost pred = |r: Role| is_candidate(*game, except, r);
    let mut out: Vec<Role> = Vec::new();
    let mut i: usize = 0;
    while i < v.len()
        invariant
            i <= v@.len(),
            v@ == role_set_roles(set),
            pred == (|r: Role| is_candidate(*game, except, r)),
            out@ == v@.take(i as int).filter(pred),
        decreases v@.len() - i,
    {
        let x = v[i];
        let ghost prev = out@;
        if game.settings.enabled_roles.contains(&x) && x != except {
            out.push(x);
        }
        proof {
            reveal_with_fuel(Seq::filter, 1);
            let t1 = v@.take(i as int + 1);
            assert(t1.drop_last() =~= v@.take(i as int));
            assert(t1.last() == x);
        }
        i = i + 1;
    }
    proof {
        assert(v@.take(i as int) =~= v@);
    }
    out
}

/// Whether `x` is among `v`.
pub fn roles_contain(v: &Vec<Role>, x: Role) -> (r: bool)
    ensures
        r == v@.contains(x),
{
    let mut i: usize = 0;
    while i < v.len()
        invariant
            i <= v@.len(),
            forall|j: int| 0 <= j < i ==> v@[j] != x,
        decreases v@.len() - i,
    {
        if v[i] == x {
            assert(v@[i as int] == x);
            return true;
        }
        i = i + 1;
    }
    false
}

/// A copy of a list of players.
pub fn copy_players(v: &Vec<PlayerReference>) -> (r: Vec<PlayerReference>)
    ensures
        r@ == v@,
{
    let mut out: Vec<PlayerReference> = Vec::new();
    let mut i: usize = 0;
    while i < v.len()
        invariant
            i <= v@.len(),
            out@ =~= v@.take(i as int),
        decreases v@.len() - i,
    {
        out.push(v[i]);
        i = i + 1;
    }
    proof {
        assert(v@.take(i as int) =~= v@);
    }
    out
}

} // verus!

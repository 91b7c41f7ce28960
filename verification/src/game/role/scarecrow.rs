//! The scarecrow: wards a player, learns who it turned away, and leaves the
//! town once everyone left wins with it.

use vstd::prelude::*;
use crate::game::{Game, data, valid_player, game_ok, alive};
use crate::game::player::{PlayerIndex, PlayerReference};
use crate::game::chat::ChatMessageVariant;
use crate::game::effect::Effect;
use crate::game::visit::Visit;
use crate::game::ability_input::{ControllerID, ControllerParameters, AvailableAbilitySelection};
use crate::random::shuffle;
use super::{Role, OnMidnightPriority, spec_wardblock_immune};
use super::philosopher::are_friends;
use super::common_role::{spec_first_visit, first_visit, visitors, visitors_of, visits_ok, selection_visits, convert_controller_selection_to_visits};

verus! {

#[derive(Clone, Copy, Debug, Default)]
pub struct Scarecrow;

/// The visitors a ward on `target` turns away: everyone visiting them but
/// the scarecrow, unless their role is immune to wards.
pub open spec fn turned_away(game: Game, actor: PlayerReference, target: PlayerReference) -> Seq<PlayerReference> {
    visitors(game, target).filter(|p: PlayerReference| wardable(game, actor, p))
}

pub open spec fn wardable(game: Game, actor: PlayerReference, p: PlayerReference) -> bool {
    valid_player(game, p) && p != actor && !spec_wardblock_immune(data(game, p).role)
}

/// The ward's effects with the turned-away players in the order `order`:
/// the ward, their roles and the target's shown to the scarecrow, and the
/// list of them as its result.
pub open spec fn ward_effects(actor: PlayerReference, target: PlayerReference, order: Seq<PlayerReference>) -> Seq<Effect> {
    seq![Effect::Ward { target }] + order.map_values(|p: PlayerReference| Effect::RevealRole { to: actor, player: p })
        + seq![Effect::RevealRole { to: actor, player: target }]
}

/// Whether `e` reports the players of `order` by index, in that order.
pub open spec fn is_scarecrow_result(e: Effect, actor: PlayerReference, order: Seq<PlayerReference>) -> bool {
    match e {
        Effect::NightMessage { to, message: ChatMessageVariant::ScarecrowResult { players } } => to == actor
            && players@ == order.map_values(|p: PlayerReference| p.index),
        _ => false,
    }
}

/// No living player who keeps the game running is anything but a friend of `actor`.
pub open spec fn all_friends(game: Game, actor: PlayerReference) -> bool {
    forall|i: int|
        0 <= i < game.players@.len() && (#[trigger] game.players@[i]).alive && game.players@[i].keeps_game_running
            ==> are_friends(game, PlayerReference { index: i as u8 }, actor)
}

impl Scarecrow {
    /// At the ward step the scarecrow wards the player it visits; it sees
    /// the roles of those turned away, in a random order, and of its target,
    /// and learns who was turned away.
    pub fn on_midnight(&self, game: &Game, actor_ref: PlayerReference, priority: OnMidnightPriority) -> (r: Vec<Effect>)
        requires
            game_ok(*game),
            visits_ok(*game),
            valid_player(*game, actor_ref),
        ensures
            priority == OnMidnightPriority::Ward && spec_first_visit(*game, actor_ref) is Some ==> {
                let target = spec_first_visit(*game, actor_ref)->0.target;
                exists|order: Seq<PlayerReference>|
                    order.to_multiset() == turned_away(*game, actor_ref, target).to_multiset() && r@.len() == order.len() + 3
                        && r@.take(order.len() + 2int) == ward_effects(actor_ref, target, order) && is_scarecrow_result(
                        r@[order.len() + 2int],
                        actor_ref,
                        order,
                    )
            },
            !(priority == OnMidnightPriority::Ward && spec_first_visit(*game, actor_ref) is Some) ==> r@.len() == 0,
    {
        let mut out: Vec<Effect> = Vec::new();
        if priority != OnMidnightPriority::Ward {
            return out;
        }
        let target = match first_visit(game, actor_ref) {
            Some(v) => v.target,
            None => return out,
        };
        let vis = visitors_of(game, target);
        let ghost pred = |p: PlayerReference| wardable(*game, actor_ref, p);
        let mut blocked: Vec<PlayerReference> = Vec::new();
        let mut i: usize = 0;
        while i < vis.len()
            invariant
                i <= vis@.len(),
                vis@ == visitors(*game, target),
                game_ok(*game),
                pred == (|p: PlayerReference| wardable(*game, actor_ref, p)),
                blocked@ == vis@.take(i as int).filter(pred),
            decreases vis@.len() - i,
        {
            let p = vis[i];
            if p != actor_ref && (p.index as usize) < game.players.len()
                && !game.players[p.index as usize].role.wardblock_immune() {
                blocked.push(p);
            }
            proof {
                reveal_with_fuel(Seq::filter, 1);
                let t1 = vis@.take(i as int + 1);
                assert(t1.drop_last() =~= vis@.take(i as int));
                assert(t1.last() == p);
            }
            i = i + 1;
        }
        proof {
            assert(vis@.take(i as int) =~= vis@);
        }
        shuffle(&mut blocked);
        out.push(Effect::Ward { target });
        let mut k: usize = 0;
        while k < blocked.len()
            invariant
                k <= blocked@.len(),
                out@ =~= seq![Effect::Ward { target }] + blocked@.map_values(
                    |p: PlayerReference| Effect::RevealRole { to: actor_ref, player: p },
                ).take(k as int),
            decreases blocked@.len() - k,
        {
            out.push(Effect::RevealRole { to: actor_ref, player: blocked[k] });
            k = k + 1;
        }
        out.push(Effect::RevealRole { to: actor_ref, player: target });
        let mut indices: Vec<PlayerIndex> = Vec::new();
        let mut j: usize = 0;
        while j < blocked.len()
            invariant
                j <= blocked@.len(),
                indices@ =~= blocked@.map_values(|p: PlayerReference| p.index).take(j as int),
            decreases blocked@.len() - j,
        {
            indices.push(blocked[j].index);
            j = j + 1;
        }
        proof {
            assert(blocked@.map_values(|p: PlayerReference| p.index).take(j as int) =~= blocked@.map_values(
                |p: PlayerReference| p.index,
            ));
            assert(blocked@.map_values(|p: PlayerReference| Effect::RevealRole { to: actor_ref, player: p }).take(
                k as int,
            ) =~= blocked@.map_values(|p: PlayerReference| Effect::RevealRole { to: actor_ref, player: p }));
        }
        out.push(Effect::NightMessage { to: actor_ref, message: ChatMessageVariant::ScarecrowResult { players: indices } });
        proof {
            assert(out@.take(blocked@.len() + 2int) =~= ward_effects(actor_ref, target, blocked@));
            assert(is_scarecrow_result(out@[blocked@.len() + 2int], actor_ref, blocked@));
        }
        out
    }

    /// The scarecrow picks another player at night, insiders allowed.
    pub fn controller_parameters_map(&self, game: &Game, actor_ref: PlayerReference) -> (r: ControllerParameters)
        ensures
            r.id == ControllerID::role(actor_ref, Role::Scarecrow, 0),
            r.available == (AvailableAbilitySelection::SinglePlayerTypical {
                can_select_self: false,
                can_select_insiders: true,
            }),
            r.night_typical,
            !r.grayed_out,
    {
        ControllerParameters {
            id: ControllerID::role(actor_ref, Role::Scarecrow, 0),
            available: AvailableAbilitySelection::SinglePlayerTypical {
                can_select_self: false,
                can_select_insiders: true,
            },
            grayed_out: false,
            night_typical: true,
            reset_on_phase_start: None,
            dont_save: false,
            default_selection: None,
            allowed_players: vec![actor_ref],
        }
    }

    pub fn convert_selection_to_visits(&self, game: &Game, actor_ref: PlayerReference) -> (r: Vec<Visit>)
        ensures
            r@ == selection_visits(*game, actor_ref, Role::Scarecrow, 0, false),
    {
        convert_controller_selection_to_visits(game, actor_ref, Role::Scarecrow, 0, false)
    }

    /// A living scarecrow leaves the town once every living player who keeps
    /// the game running wins together with it.
    pub fn on_phase_start(&self, game: &Game, actor_ref: PlayerReference) -> (r: Vec<Effect>)
        requires
            game_ok(*game),
            valid_player(*game, actor_ref),
        ensures
            r@ == if alive(*game, actor_ref) && all_friends(*game, actor_ref) {
                seq![Effect::LeaveTown { player: actor_ref }]
            } else {
                Seq::empty()
            },
    {
        if !crate::game::player_alive(game, actor_ref) {
            return Vec::new();
        }
        let mut i: usize = 0;
        while i < game.players.len()
            invariant
                i <= game.players@.len(),
                game_ok(*game),
                valid_player(*game, actor_ref),
                forall|j: int|
                    0 <= j < i && (#[trigger] game.players@[j]).alive && game.players@[j].keeps_game_running
                        ==> are_friends(*game, PlayerReference { index: j as u8 }, actor_ref),
            decreases game.players@.len() - i,
        {
            let d = &game.players[i];
            if d.alive && d.keeps_game_running {
                let p = PlayerReference { index: i as u8 };
                let enemies = super::philosopher::Philosopher::players_are_enemies_plain(game, p, actor_ref);
                if enemies {
                    assert(game.players@[i as int].alive && game.players@[i as int].keeps_game_running);
                    return Vec::new();
                }
            }
            i = i + 1;
        }
        vec![Effect::LeaveTown { player: actor_ref }]
    }
}

} // verus!

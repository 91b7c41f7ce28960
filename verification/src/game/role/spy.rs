//! The spy: learns where the mafia went, and bugs a player to hear what
//! happened to them.

use vstd::prelude::*;
use crate::game::{Game, data, valid_player, game_ok};
use crate::game::player::{PlayerIndex, PlayerReference};
use crate::game::chat::ChatMessageVariant;
use crate::game::effect::Effect;
use crate::game::visit::Visit;
use crate::game::ability_input::{ControllerID, ControllerParameters, AvailableAbilitySelection};
use crate::random::shuffle;
use super::{Role, OnMidnightPriority};
use super::common_role::{visits_of, spec_first_visit, first_visit, selection_visits, convert_controller_selection_to_visits};

verus! {

#[derive(Clone, Copy, Debug, Default)]
pub struct Spy;

/// What the spy's bug can overhear.
#[derive(Clone, Copy, Debug, PartialEq, Eq, Structural)]
pub enum SpyBug {
    Silenced,
    Roleblocked,
    Wardblocked,
    Protected,
    Transported,
    Possessed,
}

/// The bug report a message of the bugged player gives, if any.
pub open spec fn bug_of(m: ChatMessageVariant) -> Option<SpyBug> {
    match m {
        ChatMessageVariant::Silenced => Some(SpyBug::Silenced),
        ChatMessageVariant::RoleBlocked { .. } => Some(SpyBug::Roleblocked),
        ChatMessageVariant::YouWereGuarded => Some(SpyBug::Protected),
        ChatMessageVariant::Transported => Some(SpyBug::Transported),
        ChatMessageVariant::YouWerePossessed { .. } => Some(SpyBug::Possessed),
        ChatMessageVariant::Wardblocked => Some(SpyBug::Wardblocked),
        _ => None,
    }
}

/// The bug reports of a list of messages, in order.
pub open spec fn bug_reports(actor: PlayerReference, ms: Seq<ChatMessageVariant>) -> Seq<Effect>
    decreases ms.len(),
{
    if ms.len() == 0 {
        Seq::empty()
    } else {
        let before = bug_reports(actor, ms.drop_last());
        match bug_of(ms.last()) {
            Some(bug) => before.push(
                Effect::NightMessage { to: actor, message: ChatMessageVariant::SpyBug { bug } },
            ),
            None => before,
        }
    }
}

/// The indices of the players the mafia members among the first `n` players
/// visited tonight, member by member in index order.
pub open spec fn mafia_visits_upto(game: Game, n: int) -> Seq<PlayerIndex>
    decreases n,
{
    if n <= 0 {
        Seq::empty()
    } else {
        let p = PlayerReference { index: (n - 1) as u8 };
        let before = mafia_visits_upto(game, n - 1);
        if data(game, p).in_mafia {
            before + visits_of(game, p).map_values(|v: Visit| v.target.index)
        } else {
            before
        }
    }
}

pub open spec fn mafia_visits(game: Game) -> Seq<PlayerIndex> {
    mafia_visits_upto(game, game.players@.len() as int)
}

/// Whether `e` tells the spy where the mafia went: the targets of their
/// visits, in some order.
pub open spec fn is_mafia_visit_report(game: Game, actor: PlayerReference, e: Effect) -> bool {
    match e {
        Effect::NightMessage { to, message: ChatMessageVariant::SpyMafiaVisit { players } } => to
            == actor && players@.to_multiset() == mafia_visits(game).to_multiset(),
        _ => false,
    }
}

fn bug_message(m: &ChatMessageVariant) -> (r: Option<SpyBug>)
    ensures
        r == bug_of(*m),
{
    match m {
        ChatMessageVariant::Silenced => Some(SpyBug::Silenced),
        ChatMessageVariant::RoleBlocked { .. } => Some(SpyBug::Roleblocked),
        ChatMessageVariant::YouWereGuarded => Some(SpyBug::Protected),
        ChatMessageVariant::Transported => Some(SpyBug::Transported),
        ChatMessageVariant::YouWerePossessed { .. } => Some(SpyBug::Possessed),
        ChatMessageVariant::Wardblocked => Some(SpyBug::Wardblocked),
        _ => None,
    }
}

fn collect_mafia_visits(game: &Game) -> (r: Vec<PlayerIndex>)
    requires
        game_ok(*game),
    ensures
        r@ == mafia_visits(*game),
{
    let mut out: Vec<PlayerIndex> = Vec::new();
    let mut i: usize = 0;
    while i < game.players.len()
        invariant
            i <= game.players@.len(),
            game_ok(*game),
            out@ == mafia_visits_upto(*game, i as int),
        decreases game.players@.len() - i,
    {
        let p = PlayerReference { index: i as u8 };
        if game.players[i].in_mafia {
            let v = &game.players[i].night_visits;
            let ghost start = out@;
            let mut j: usize = 0;
            while j < v.len()
                invariant
                    j <= v@.len(),
                    v@ == visits_of(*game, p),
                    out@ =~= start + v@.map_values(|x: Visit| x.target.index).take(j as int),
                decreases v@.len() - j,
            {
                out.push(v[j].target.index);
                j = j + 1;
            }
            proof {
                assert(v@.map_values(|x: Visit| x.target.index).take(j as int) =~= v@.map_values(
                    |x: Visit| x.target.index,
                ));
            }
        }
        i = i + 1;
    }
    out
}

impl Spy {
    /// The spy's night. At the investigative step a spy whose ability works
    /// hears where the mafia went, in a shuffled order; at the bugging step
    /// it hears what happened to the first player it visited.
    pub fn on_midnight(
        &self,
        game: &Game,
        actor_ref: PlayerReference,
        priority: OnMidnightPriority,
    ) -> (r: Vec<Effect>)
        requires
            game_ok(*game),
            valid_player(*game, actor_ref),
        ensures
            priority == OnMidnightPriority::Investigative ==> if data(*game, actor_ref).night_blocked
                || data(*game, actor_ref).ability_deactivated_from_death {
                r@.len() == 0
            } else {
                r@.len() == 1 && is_mafia_visit_report(*game, actor_ref, r@[0])
            },
            priority == OnMidnightPriority::SpyBug ==> r@ == match spec_first_visit(*game, actor_ref) {
                Some(v) => if valid_player(*game, v.target) {
                    bug_reports(actor_ref, data(*game, v.target).night_messages@)
                } else {
                    Seq::empty()
                },
                None => Seq::empty(),
            },
            priority != OnMidnightPriority::Investigative && priority != OnMidnightPriority::SpyBug
                ==> r@.len() == 0,
    {
        let mut out: Vec<Effect> = Vec::new();
        match priority {
            OnMidnightPriority::Investigative => {
                let d = &game.players[actor_ref.index as usize];
                if d.night_blocked || d.ability_deactivated_from_death {
                    return out;
                }
                let mut players = collect_mafia_visits(game);
                shuffle(&mut players);
                out.push(
                    Effect::NightMessage {
                        to: actor_ref,
                        message: ChatMessageVariant::SpyMafiaVisit { players },
                    },
                );
                out
            },
            OnMidnightPriority::SpyBug => {
                let visit = match first_visit(game, actor_ref) {
                    Some(v) => v,
                    None => return out,
                };
                if (visit.target.index as usize) >= game.players.len() {
                    return out;
                }
                let ms = &game.players[visit.target.index as usize].night_messages;
                let mut i: usize = 0;
                while i < ms.len()
                    invariant
                        i <= ms@.len(),
                        ms@ == data(*game, visit.target).night_messages@,
                        out@ == bug_reports(actor_ref, ms@.take(i as int)),
                    decreases ms@.len() - i,
                {
                    proof {
                        assert(ms@.take(i as int + 1).drop_last() =~= ms@.take(i as int));
                    }
                    match bug_message(&ms[i]) {
                        Some(bug) => {
                            out.push(
                                Effect::NightMessage {
                                    to: actor_ref,
                                    message: ChatMessageVariant::SpyBug { bug },
                                },
                            );
                        },
                        None => {},
                    }
                    i = i + 1;
                }
                proof {
                    assert(ms@.take(i as int) =~= ms@);
                }
                out
            },
            _ => out,
        }
    }

    /// The spy picks one player at night, not itself, insiders allowed; the
    /// controller is never grayed out.
    pub fn controller_parameters_map(&self, game: &Game, actor_ref: PlayerReference) -> (r:
        ControllerParameters)
        ensures
            r.id == ControllerID::role(actor_ref, Role::Spy, 0),
            r.available == (AvailableAbilitySelection::SinglePlayerTypical {
                can_select_self: false,
                can_select_insiders: true,
            }),
            r.night_typical,
            !r.grayed_out,
            r.reset_on_phase_start is None,
            !r.dont_save,
            r.allowed_players@ == seq![actor_ref],
    {
        ControllerParameters {
            id: ControllerID::role(actor_ref, Role::Spy, 0),
            available: AvailableAbilitySelection::SinglePlayerTypical {
                can_select_self: false,
                can_select_insiders: true,
            },
            grayed_out: false,
            night_typical: true,
            reset_on_phase_start: None,
            dont_save: false,
            default_selection: None,
            allowed_players: vec![actor_ref],
        }
    }

    pub fn convert_selection_to_visits(&self, game: &Game, actor_ref: PlayerReference) -> (r: Vec<Visit>)
        ensures
            r@ == selection_visits(*game, actor_ref, Role::Spy, 0, false),
    {
        convert_controller_selection_to_visits(game, actor_ref, Role::Spy, 0, false)
    }
}

} // verus!

//! The trapper: builds a trap, sets it on a player, and springs it on whoever
//! visits them.

use vstd::prelude::*;
use crate::game::{Game, data, valid_player, game_ok, alive};
use crate::game::player::PlayerReference;
use crate::game::chat::ChatMessageVariant;
use crate::game::effect::{Effect, GraveKiller};
use crate::game::attack_power::{AttackPower, DefensePower};
use crate::game::visit::Visit;
use crate::game::phase::PhaseType;
use super::{Role, Priority};
use super::common_role::{visits_of, spec_first_visit, first_visit, visited, did_visit};

verus! {

#[derive(Clone, Copy, Debug, PartialEq, Eq, Structural)]
pub enum Trap {
    Dismantled,
    Ready,
    Placed { target: PlayerReference },
}

/// What the trapper's client shows of the trap.
#[derive(Clone, Copy, Debug, PartialEq, Eq, Structural)]
pub enum TrapState {
    Dismantled,
    Ready,
    Placed,
}

/// What the client shows of `trap`: its variant without the target.
pub open spec fn trap_state(trap: Trap) -> TrapState {
    match trap {
        Trap::Dismantled => TrapState::Dismantled,
        Trap::Ready => TrapState::Ready,
        Trap::Placed { .. } => TrapState::Placed,
    }
}

impl Trap {
    pub fn state(&self) -> (r: TrapState)
        ensures
            r == trap_state(*self),
    {
        match self {
            Trap::Dismantled => TrapState::Dismantled,
            Trap::Ready => TrapState::Ready,
            Trap::Placed { .. } => TrapState::Placed,
        }
    }
}

#[derive(Clone, Copy, Debug, PartialEq, Eq, Structural)]
pub struct Trapper {
    pub trap: Trap,
}

impl Default for Trapper {
    fn default() -> (r: Self)
        ensures
            r.trap == Trap::Dismantled,
    {
        Trapper { trap: Trap::Dismantled }
    }
}

/// The trap after the heal step: visiting oneself takes a set trap down,
/// visiting another sets a ready trap on them, and a dismantled trap is
/// rebuilt unless the trapper was blocked.
pub open spec fn trap_after_heal(game: Game, actor: PlayerReference, trap: Trap) -> Trap {
    let placed = match spec_first_visit(game, actor) {
        Some(v) => if v.target == actor && trap is Placed {
            Trap::Dismantled
        } else if v.target != actor && trap is Ready {
            Trap::Placed { target: v.target }
        } else {
            trap
        },
        None => trap,
    };
    if trap is Dismantled && !data(game, actor).night_blocked {
        Trap::Ready
    } else {
        placed
    }
}

/// Whether `p` made an attacking visit to `target` tonight.
pub open spec fn attacked_visit(game: Game, p: PlayerReference, target: PlayerReference) -> bool {
    exists|i: int|
        0 <= i < visits_of(game, p).len() && (#[trigger] visits_of(game, p)[i]).target == target
            && visits_of(game, p)[i].attack
}

/// The trap's attacks on the players among the first `n` who attacked its
/// target, in index order.
pub open spec fn trap_attacks_upto(game: Game, actor: PlayerReference, target: PlayerReference, n: int) -> Seq<Effect>
    decreases n,
{
    if n <= 0 {
        Seq::empty()
    } else {
        let p = PlayerReference { index: (n - 1) as u8 };
        let before = trap_attacks_upto(game, actor, target, n - 1);
        if attacked_visit(game, p, target) && p != actor {
            before.push(
                Effect::Attack {
                    attacker: actor,
                    target: p,
                    killer: GraveKiller::Role(Role::Trapper),
                    power: AttackPower::ArmorPiercing,
                    leave_death_note: false,
                },
            ).push(
                Effect::NightMessage {
                    to: actor,
                    message: ChatMessageVariant::TrapperYouAttackedVisitor,
                },
            )
        } else {
            before
        }
    }
}

/// The roles of the players among the first `n` who visited the trap's
/// target, in index order, as reports to the trapper.
pub open spec fn trap_reports_upto(game: Game, actor: PlayerReference, target: PlayerReference, n: int) -> Seq<Effect>
    decreases n,
{
    if n <= 0 {
        Seq::empty()
    } else {
        let p = PlayerReference { index: (n - 1) as u8 };
        let before = trap_reports_upto(game, actor, target, n - 1);
        if visited(game, p, target) && p != actor {
            before.push(
                Effect::NightMessage {
                    to: actor,
                    message: ChatMessageVariant::TrapperVisitorsRole { role: data(game, p).role },
                },
            )
        } else {
            before
        }
    }
}

/// Whether a player among the first `n` other than the trapper visited `target`.
pub open spec fn trap_sprung_upto(game: Game, actor: PlayerReference, target: PlayerReference, n: int) -> bool
    decreases n,
{
    if n <= 0 {
        false
    } else {
        let p = PlayerReference { index: (n - 1) as u8 };
        trap_sprung_upto(game, actor, target, n - 1) || (visited(game, p, target) && p != actor)
    }
}

/// The trapper's night step `priority`: its new state and its effects.
pub open spec fn trapper_night(game: Game, actor: PlayerReference, trap: Trap, priority: Priority) -> (Trap, Seq<Effect>) {
    let n = game.players@.len() as int;
    match priority {
        Priority::Heal => (
            trap_after_heal(game, actor, trap),
            match trap {
                Trap::Placed { target } => seq![Effect::Defend { target, power: DefensePower::Protected }],
                _ => Seq::empty(),
            },
        ),
        Priority::Kill => (
            trap,
            match trap {
                Trap::Placed { target } => trap_attacks_upto(game, actor, target, n),
                _ => Seq::empty(),
            },
        ),
        Priority::Investigative => match trap {
            Trap::Placed { target } => {
                let attacked = if valid_player(game, target) && data(game, target).night_attacked {
                    seq![
                        Effect::NightMessage { to: actor, message: ChatMessageVariant::TargetWasAttacked },
                        Effect::NightMessage { to: target, message: ChatMessageVariant::YouWereProtected },
                    ]
                } else {
                    Seq::empty()
                };
                (
                    if trap_sprung_upto(game, actor, target, n) { Trap::Dismantled } else { trap },
                    attacked + trap_reports_upto(game, actor, target, n),
                )
            },
            _ => (trap, Seq::empty()),
        },
        _ => (trap, Seq::empty()),
    }
}

fn attacked_target(game: &Game, p: PlayerReference, target: PlayerReference) -> (r: bool)
    requires
        valid_player(*game, p),
    ensures
        r == attacked_visit(*game, p, target),
{
    let v = &game.players[p.index as usize].night_visits;
    let mut i: usize = 0;
    while i < v.len()
        invariant
            i <= v@.len(),
            v@ == visits_of(*game, p),
            forall|j: int| 0 <= j < i ==> !(v@[j].target == target && v@[j].attack),
        decreases v@.len() - i,
    {
        if v[i].target == target && v[i].attack {
            return true;
        }
        i = i + 1;
    }
    false
}

impl Trapper {
    pub fn do_night_action(&self, game: &Game, actor_ref: PlayerReference, priority: Priority) -> (r: (
        Trapper,
        Vec<Effect>,
    ))
        requires
            game_ok(*game),
            valid_player(*game, actor_ref),
        ensures
            (r.0.trap, r.1@) == trapper_night(*game, actor_ref, self.trap, priority),
    {
        let ghost n = game.players@.len() as int;
        let mut out: Vec<Effect> = Vec::new();
        match priority {
            Priority::Heal => {
                let mut next = self.trap;
                match first_visit(game, actor_ref) {
                    Some(v) => {
                        if v.target == actor_ref && matches!(self.trap, Trap::Placed { .. }) {
                            next = Trap::Dismantled;
                        } else if v.target != actor_ref && matches!(self.trap, Trap::Ready) {
                            next = Trap::Placed { target: v.target };
                        }
                    },
                    None => {},
                }
                if matches!(self.trap, Trap::Dismantled) && !game.players[actor_ref.index as usize].night_blocked {
                    next = Trap::Ready;
                }
                match self.trap {
                    Trap::Placed { target } => {
                        out.push(Effect::Defend { target, power: DefensePower::Protected });
                    },
                    _ => {},
                }
                (Trapper { trap: next }, out)
            },
            Priority::Kill => {
                match self.trap {
                    Trap::Placed { target } => {
                        let mut i: usize = 0;
                        while i < game.players.len()
                            invariant
                                i <= game.players@.len(),
                                game_ok(*game),
                                out@ == trap_attacks_upto(*game, actor_ref, target, i as int),
                            decreases game.players@.len() - i,
                        {
                            let p = PlayerReference { index: i as u8 };
                            if attacked_target(game, p, target) && p != actor_ref {
                                out.push(
                                    Effect::Attack {
                                        attacker: actor_ref,
                                        target: p,
                                        killer: GraveKiller::Role(Role::Trapper),
                                        power: AttackPower::ArmorPiercing,
                                        leave_death_note: false,
                                    },
                                );
                                out.push(
                                    Effect::NightMessage {
                                        to: actor_ref,
                                        message: ChatMessageVariant::TrapperYouAttackedVisitor,
                                    },
                                );
                            }
                            i = i + 1;
                        }
                    },
                    _ => {},
                }
                (*self, out)
            },
            Priority::Investigative => {
                match self.trap {
                    Trap::Placed { target } => {
                        if (target.index as usize) < game.players.len()
                            && game.players[target.index as usize].night_attacked {
                            out.push(
                                Effect::NightMessage {
                                    to: actor_ref,
                                    message: ChatMessageVariant::TargetWasAttacked,
                                },
                            );
                            out.push(
                                Effect::NightMessage {
                                    to: target,
                                    message: ChatMessageVariant::YouWereProtected,
                                },
                            );
                        }
                        let ghost attacked = out@;
                        let mut sprung = false;
                        let mut i: usize = 0;
                        while i < game.players.len()
                            invariant
                                i <= game.players@.len(),
                                game_ok(*game),
                                out@ == attacked + trap_reports_upto(*game, actor_ref, target, i as int),
                                sprung == trap_sprung_upto(*game, actor_ref, target, i as int),
                            decreases game.players@.len() - i,
                        {
                            let p = PlayerReference { index: i as u8 };
                            if did_visit(game, p, target) && p != actor_ref {
                                sprung = true;
                                out.push(
                                    Effect::NightMessage {
                                        to: actor_ref,
                                        message: ChatMessageVariant::TrapperVisitorsRole {
                                            role: game.players[i].role,
                                        },
                                    },
                                );
                            }
                            i = i + 1;
                        }
                        let next = if sprung {
                            Trap::Dismantled
                        } else {
                            self.trap
                        };
                        (Trapper { trap: next }, out)
                    },
                    _ => (*self, out),
                }
            },
            _ => (*self, out),
        }
    }

    /// Whether the trapper may target `target` tonight: itself to take a set
    /// trap down, another to set a ready trap, never with the trap
    /// dismantled; only while free, alive, with no target chosen yet, and at
    /// a living player.
    /// At nightfall a living trapper is told the state of its trap.
    pub fn on_phase_start(&self, game: &Game, actor_ref: PlayerReference, phase: PhaseType) -> (r: Vec<Effect>)
        requires
            game_ok(*game),
            valid_player(*game, actor_ref),
        ensures
            phase == PhaseType::Night && alive(*game, actor_ref) ==> r@ == seq![
                Effect::PrivateMessage {
                    to: actor_ref,
                    message: ChatMessageVariant::TrapState { state: trap_state(self.trap) },
                },
            ],
            !(phase == PhaseType::Night && alive(*game, actor_ref)) ==> r@.len() == 0,
    {
        if phase == PhaseType::Night && crate::game::player_alive(game, actor_ref) {
            vec![Effect::PrivateMessage {
                to: actor_ref,
                message: ChatMessageVariant::TrapState { state: self.trap.state() },
            }]
        } else {
            Vec::new()
        }
    }

    pub fn can_night_target(&self, game: &Game, actor_ref: PlayerReference, target_ref: PlayerReference) -> (r: bool)
        requires
            valid_player(*game, actor_ref),
        ensures
            r == ((match self.trap {
                Trap::Placed { target } => actor_ref == target,
                Trap::Ready => actor_ref != target_ref,
                Trap::Dismantled => false,
            }) && !data(*game, actor_ref).detained && data(*game, actor_ref).chosen_targets@.len() == 0
                && alive(*game, actor_ref) && alive(*game, target_ref)),
    {
        let by_trap = match self.trap {
            Trap::Placed { target } => actor_ref == target,
            Trap::Ready => actor_ref != target_ref,
            Trap::Dismantled => false,
        };
        let d = &game.players[actor_ref.index as usize];
        by_trap && !d.detained && d.chosen_targets.len() == 0 && crate::game::player_alive(game, actor_ref)
            && crate::game::player_alive(game, target_ref)
    }
}

} // verus!

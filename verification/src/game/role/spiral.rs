//! The spiral: attacks a player, and the poison spirals out to everyone who
//! visits a spiraling player.

use vstd::prelude::*;
use crate::vec_set::VecSet;
use crate::game::{Game, data, valid_player, game_ok, alive};
use crate::game::player::PlayerReference;
use crate::game::effect::{Effect, GraveKiller};
use crate::game::attack_power::AttackPower;
use crate::game::tag::Tag;
use crate::game::visit::Visit;
use crate::game::ability_input::{ControllerID, ControllerParameters, AvailableAbilitySelection};
use super::{Role, OnMidnightPriority, GetClientRoleState};
use super::common_role::{spec_first_visit, first_visit, visitors, visitors_of, selection_visits, convert_controller_selection_to_visits};

verus! {

#[derive(Debug)]
pub struct Spiral {
    pub spiraling: VecSet<PlayerReference>,
}

#[derive(Clone, Copy, Debug)]
pub struct ClientRoleState;

impl Default for Spiral {
    fn default() -> (r: Self)
        ensures
            r.spiraling@.len() == 0,
    {
        Spiral { spiraling: VecSet::new() }
    }
}

/// The set so far and the effects so far.
pub type SpiralAcc = (Seq<PlayerReference>, Seq<Effect>);

/// `v` starts spiraling: poisoned by the spiral and tagged for it; the
/// spiral itself never does.
pub open spec fn start_spiraling(actor: PlayerReference, acc: SpiralAcc, v: PlayerReference) -> SpiralAcc {
    if v == actor {
        acc
    } else {
        (
            if acc.0.contains(v) { acc.0 } else { acc.0.push(v) },
            acc.1 + seq![
                Effect::Poison {
                    target: v,
                    attacker: actor,
                    killer: GraveKiller::Role(Role::Spiral),
                    power: AttackPower::ArmorPiercing,
                },
                Effect::PlayerTag { viewer: actor, player: v, tag: Tag::Spiraling },
            ],
        )
    }
}

/// The living visitors of `target` other than `target`.
pub open spec fn spiral_sources(game: Game, target: PlayerReference) -> Seq<PlayerReference> {
    visitors(game, target).filter(|p: PlayerReference| spiral_source(game, target, p))
}

pub open spec fn spiral_source(game: Game, target: PlayerReference, p: PlayerReference) -> bool {
    alive(game, p) && p != target
}

/// Every player of `vs` starts spiraling, in order.
pub open spec fn spiral_all(actor: PlayerReference, acc: SpiralAcc, vs: Seq<PlayerReference>) -> SpiralAcc
    decreases vs.len(),
{
    if vs.len() == 0 {
        acc
    } else {
        start_spiraling(actor, spiral_all(actor, acc, vs.drop_last()), vs.last())
    }
}

/// A spiraling player stops spiraling, and those who visited them start.
pub open spec fn pass_on(game: Game, actor: PlayerReference, acc: SpiralAcc, s: PlayerReference) -> SpiralAcc {
    let removed = (
        acc.0.filter(|x: PlayerReference| x != s),
        acc.1.push(Effect::RemovePlayerTag { viewer: actor, player: s, tag: Tag::Spiraling }),
    );
    spiral_all(actor, removed, spiral_sources(game, s))
}

pub open spec fn pass_on_all(game: Game, actor: PlayerReference, acc: SpiralAcc, ss: Seq<PlayerReference>) -> SpiralAcc
    decreases ss.len(),
{
    if ss.len() == 0 {
        acc
    } else {
        pass_on(game, actor, pass_on_all(game, actor, acc, ss.drop_last()), ss.last())
    }
}

/// The spiral's poison step: with no one spiraling after the first night it
/// attacks the player it visits and that player's visitors start spiraling;
/// otherwise the spiral passes from each spiraling player to their visitors.
pub open spec fn spiral_night(game: Game, actor: PlayerReference, spiraling: Seq<PlayerReference>) -> SpiralAcc {
    if spiraling.len() == 0 && game.day_number > 1 {
        match spec_first_visit(game, actor) {
            Some(v) => spiral_all(
                actor,
                (
                    Seq::empty(),
                    seq![
                        Effect::Attack {
                            attacker: actor,
                            target: v.target,
                            killer: GraveKiller::Role(Role::Spiral),
                            power: AttackPower::ArmorPiercing,
                            leave_death_note: true,
                        },
                    ],
                ),
                spiral_sources(game, v.target),
            ),
            None => (Seq::empty(), Seq::empty()),
        }
    } else {
        pass_on_all(game, actor, (Seq::empty(), Seq::empty()), spiraling)
    }
}

/// `target` starts spiraling: poisoned by the spiral and tagged for it. The
/// spiral itself never starts spiraling.
fn start_player_spiraling(actor_ref: PlayerReference, target: PlayerReference, set: &mut VecSet<PlayerReference>, out: &mut Vec<Effect>)
    ensures
        (final(set)@, final(out)@) == start_spiraling(actor_ref, (old(set)@, old(out)@), target),
{
    if target == actor_ref {
        return;
    }
    let ghost before = out@;
    out.push(
        Effect::Poison {
            target,
            attacker: actor_ref,
            killer: GraveKiller::Role(Role::Spiral),
            power: AttackPower::ArmorPiercing,
        },
    );
    out.push(Effect::PlayerTag { viewer: actor_ref, player: target, tag: Tag::Spiraling });
    set.insert(target);
    assert(out@ =~= before + seq![
        Effect::Poison {
            target,
            attacker: actor_ref,
            killer: GraveKiller::Role(Role::Spiral),
            power: AttackPower::ArmorPiercing,
        },
        Effect::PlayerTag { viewer: actor_ref, player: target, tag: Tag::Spiraling },
    ]);
}

fn spiral_visitors(game: &Game, actor_ref: PlayerReference, target: PlayerReference, set: &mut VecSet<PlayerReference>, out: &mut Vec<Effect>)
    requires
        game_ok(*game),
    ensures
        (final(set)@, final(out)@) == spiral_all(actor_ref, (old(set)@, old(out)@), spiral_sources(*game, target)),
{
    let vis = visitors_of(game, target);
    let ghost pred = |p: PlayerReference| spiral_source(*game, target, p);
    let ghost src: Seq<PlayerReference> = Seq::empty();
    let ghost start = (old(set)@, old(out)@);
    let mut i: usize = 0;
    while i < vis.len()
        invariant
            i <= vis@.len(),
            vis@ == visitors(*game, target),
            pred == (|p: PlayerReference| spiral_source(*game, target, p)),
            src == vis@.take(i as int).filter(pred),
            (set@, out@) == spiral_all(actor_ref, start, src),
        decreases vis@.len() - i,
    {
        let v = vis[i];
        let ghost prev = src;
        if crate::game::player_alive(game, v) && v != target {
            start_player_spiraling(actor_ref, v, set, out);
        }
        proof {
            reveal_with_fuel(Seq::filter, 1);
            let t1 = vis@.take(i as int + 1);
            assert(t1.drop_last() =~= vis@.take(i as int));
            assert(t1.last() == v);
            src = t1.filter(pred);
            if pred(v) {
                assert(src.drop_last() =~= prev);
                assert(src.last() == v);
            }
        }
        i = i + 1;
    }
    proof {
        assert(vis@.take(i as int) =~= vis@);
        assert(src == spiral_sources(*game, target));
    }
}

impl Spiral {
    pub fn on_midnight(self, game: &Game, actor_ref: PlayerReference, priority: OnMidnightPriority) -> (r: (Spiral, Vec<Effect>))
        requires
            game_ok(*game),
            valid_player(*game, actor_ref),
        ensures
            priority == OnMidnightPriority::Poison ==> (r.0.spiraling@, r.1@) == spiral_night(*game, actor_ref, self.spiraling@),
            priority != OnMidnightPriority::Poison ==> r.0.spiraling@ == self.spiraling@ && r.1@.len() == 0,
    {
        let mut out: Vec<Effect> = Vec::new();
        if priority != OnMidnightPriority::Poison {
            return (self, out);
        }
        let mut set: VecSet<PlayerReference> = VecSet::new();
        if self.spiraling.is_empty() && game.day_number > 1 {
            match first_visit(game, actor_ref) {
                Some(v) => {
                    out.push(
                        Effect::Attack {
                            attacker: actor_ref,
                            target: v.target,
                            killer: GraveKiller::Role(Role::Spiral),
                            power: AttackPower::ArmorPiercing,
                            leave_death_note: true,
                        },
                    );
                    spiral_visitors(game, actor_ref, v.target, &mut set, &mut out);
                },
                None => {},
            }
        } else {
            let ss = self.spiraling.as_vec();
            let mut i: usize = 0;
            while i < ss.len()
                invariant
                    i <= ss@.len(),
                    game_ok(*game),
                    (set@, out@) == pass_on_all(*game, actor_ref, (Seq::empty(), Seq::empty()), ss@.take(i as int)),
                decreases ss@.len() - i,
            {
                proof {
                    assert(ss@.take(i as int + 1).drop_last() =~= ss@.take(i as int));
                }
                let s = ss[i];
                set.remove(&s);
                out.push(Effect::RemovePlayerTag { viewer: actor_ref, player: s, tag: Tag::Spiraling });
                spiral_visitors(game, actor_ref, s, &mut set, &mut out);
                i = i + 1;
            }
            proof {
                assert(ss@.take(i as int) =~= ss@);
            }
        }
        (Spiral { spiraling: set }, out)
    }

    /// The spiral picks another player at night, insiders allowed, after the
    /// first night and while no one spirals.
    pub fn controller_parameters_map(&self, game: &Game, actor_ref: PlayerReference) -> (r: ControllerParameters)
        ensures
            r.id == ControllerID::role(actor_ref, Role::Spiral, 0),
            r.available == (AvailableAbilitySelection::SinglePlayerTypical {
                can_select_self: false,
                can_select_insiders: true,
            }),
            r.night_typical,
            r.grayed_out == (game.day_number <= 1 || self.spiraling@.len() > 0),
    {
        ControllerParameters {
            id: ControllerID::role(actor_ref, Role::Spiral, 0),
            available: AvailableAbilitySelection::SinglePlayerTypical {
                can_select_self: false,
                can_select_insiders: true,
            },
            grayed_out: game.day_number <= 1 || !self.spiraling.is_empty(),
            night_typical: true,
            reset_on_phase_start: None,
            dont_save: false,
            default_selection: None,
            allowed_players: vec![actor_ref],
        }
    }

    pub fn convert_selection_to_visits(&self, game: &Game, actor_ref: PlayerReference) -> (r: Vec<Visit>)
        ensures
            r@ == selection_visits(*game, actor_ref, Role::Spiral, 0, true),
    {
        convert_controller_selection_to_visits(game, actor_ref, Role::Spiral, 0, true)
    }

    /// A spiral leaving the role clears its spiraling tags.
    pub fn before_role_switch(&self, actor_ref: PlayerReference, player: PlayerReference) -> (r: Vec<Effect>)
        ensures
            player == actor_ref ==> r@ == seq![Effect::RemoveTagEverywhere { viewer: actor_ref, tag: Tag::Spiraling }],
            player != actor_ref ==> r@.len() == 0,
    {
        if player == actor_ref {
            vec![Effect::RemoveTagEverywhere { viewer: actor_ref, tag: Tag::Spiraling }]
        } else {
            Vec::new()
        }
    }
}

impl GetClientRoleState<ClientRoleState> for Spiral {
    fn get_client_role_state(self, game: &Game, actor_ref: PlayerReference) -> ClientRoleState {
        ClientRoleState
    }
}

} // verus!

//! The tavernkeep: gets visitors and targets drunk, and can kill the one it
//! pours for.

use vstd::prelude::*;
use crate::game::{Game, data, valid_player, game_ok};
use crate::game::player::PlayerReference;
use crate::game::effect::{Effect, GraveKiller};
use crate::game::attack_power::AttackPower;
use crate::game::visit::Visit;
use crate::game::ability_input::{ControllerID, ControllerParameters, AvailableAbilitySelection};
use super::{Role, OnMidnightPriority};
use super::common_role::{
    visits_of, spec_first_visit, first_visit, visitors, visitors_of, selection_visits,
    convert_controller_selection_to_visits,
};

verus! {

#[derive(Clone, Copy, Debug, Default)]
pub struct Tavernkeep;

/// The roles that possess other players.
pub open spec fn possesses(r: Role) -> bool {
    r == Role::Witch || r == Role::MafiaWitch || r == Role::Necromancer || r == Role::Retributionist
}

/// Whether `p` is a player of the game whose role possesses others.
pub open spec fn is_possessor(game: Game, p: PlayerReference) -> bool {
    valid_player(game, p) && possesses(data(game, p).role)
}

fn possessor(game: &Game, p: PlayerReference) -> (r: bool)
    ensures
        r == is_possessor(*game, p),
{
    if (p.index as usize) >= game.players.len() {
        return false;
    }
    let r = game.players[p.index as usize].role;
    r == Role::Witch || r == Role::MafiaWitch || r == Role::Necromancer || r == Role::Retributionist
}

/// Confusing, for this night, the possessors in `ps`.
pub open spec fn confuse_possessors(game: Game, ps: Seq<PlayerReference>) -> Seq<Effect>
    decreases ps.len(),
{
    if ps.len() == 0 {
        Seq::empty()
    } else {
        let before = confuse_possessors(game, ps.drop_last());
        if is_possessor(game, ps.last()) {
            before.push(Effect::Confuse { target: ps.last(), duration: 0 })
        } else {
            before
        }
    }
}

/// Getting the visitors in `ps` other than `actor` drunk for two nights.
pub open spec fn drink_visitors(actor: PlayerReference, ps: Seq<PlayerReference>) -> Seq<Effect>
    decreases ps.len(),
{
    if ps.len() == 0 {
        Seq::empty()
    } else {
        let before = drink_visitors(actor, ps.drop_last());
        if ps.last() != actor {
            before + seq![
                Effect::Confuse { target: ps.last(), duration: 1 },
                Effect::DrunkAura { target: ps.last(), duration: 1 },
            ]
        } else {
            before
        }
    }
}

pub open spec fn tavern_attack(actor: PlayerReference, target: PlayerReference) -> Effect {
    Effect::Attack {
        attacker: actor,
        target,
        killer: GraveKiller::Role(Role::Tavernkeep),
        power: AttackPower::ArmorPiercing,
        leave_death_note: true,
    }
}

/// Getting the targets of the visits `vs` drunk for two nights, attacking
/// those visited with an attack.
pub open spec fn drink_targets(actor: PlayerReference, vs: Seq<Visit>) -> Seq<Effect>
    decreases vs.len(),
{
    if vs.len() == 0 {
        Seq::empty()
    } else {
        let v = vs.last();
        drink_targets(actor, vs.drop_last()) + seq![
            Effect::Confuse { target: v.target, duration: 1 },
            Effect::DrunkAura { target: v.target, duration: 1 },
        ] + if v.attack {
            seq![tavern_attack(actor, v.target)]
        } else {
            Seq::empty()
        }
    }
}

/// The tavernkeep's night.
pub open spec fn tavernkeep_night(game: Game, actor: PlayerReference, priority: OnMidnightPriority) -> Seq<Effect> {
    match priority {
        OnMidnightPriority::ConfusePossessors => confuse_possessors(game, visitors(game, actor))
            + confuse_possessors(game, visits_of(game, actor).map_values(|v: Visit| v.target)),
        OnMidnightPriority::Confuse => drink_visitors(actor, visitors(game, actor)) + drink_targets(
            actor,
            visits_of(game, actor),
        ),
        OnMidnightPriority::Kill => if game.day_number == 1 {
            Seq::empty()
        } else {
            match spec_first_visit(game, actor) {
                Some(v) => if v.attack {
                    seq![tavern_attack(actor, v.target)]
                } else {
                    Seq::empty()
                },
                None => Seq::empty(),
            }
        },
        _ => Seq::empty(),
    }
}

fn push_confused_possessors(game: &Game, ps: &Vec<PlayerReference>, out: &mut Vec<Effect>)
    ensures
        final(out)@ == old(out)@ + confuse_possessors(*game, ps@),
{
    let ghost start = old(out)@;
    let mut i: usize = 0;
    while i < ps.len()
        invariant
            i <= ps@.len(),
            out@ == start + confuse_possessors(*game, ps@.take(i as int)),
        decreases ps@.len() - i,
    {
        proof {
            assert(ps@.take(i as int + 1).drop_last() =~= ps@.take(i as int));
        }
        if possessor(game, ps[i]) {
            out.push(Effect::Confuse { target: ps[i], duration: 0 });
        }
        proof {
            assert(out@ =~= start + confuse_possessors(*game, ps@.take(i as int + 1)));
        }
        i = i + 1;
    }
    proof {
        assert(ps@.take(i as int) =~= ps@);
    }
}

impl Tavernkeep {
    pub fn do_night_action(&self, game: &Game, actor_ref: PlayerReference, priority: OnMidnightPriority) -> (r: Vec<Effect>)
        requires
            game_ok(*game),
            valid_player(*game, actor_ref),
        ensures
            r@ == tavernkeep_night(*game, actor_ref, priority),
    {
        let mut out: Vec<Effect> = Vec::new();
        match priority {
            OnMidnightPriority::ConfusePossessors => {
                let vis = visitors_of(game, actor_ref);
                push_confused_possessors(game, &vis, &mut out);
                let targets = crate::game::role::common_role::night_targets(game, actor_ref);
                proof {
                    assert(targets@ =~= visits_of(*game, actor_ref).map_values(|v: Visit| v.target));
                }
                push_confused_possessors(game, &targets, &mut out);
                out
            },
            OnMidnightPriority::Confuse => {
                let vis = visitors_of(game, actor_ref);
                let mut i: usize = 0;
                while i < vis.len()
                    invariant
                        i <= vis@.len(),
                        out@ == drink_visitors(actor_ref, vis@.take(i as int)),
                    decreases vis@.len() - i,
                {
                    proof {
                        assert(vis@.take(i as int + 1).drop_last() =~= vis@.take(i as int));
                    }
                    let p = vis[i];
                    if p != actor_ref {
                        out.push(Effect::Confuse { target: p, duration: 1 });
                        out.push(Effect::DrunkAura { target: p, duration: 1 });
                    }
                    proof {
                        assert(out@ =~= drink_visitors(actor_ref, vis@.take(i as int + 1)));
                    }
                    i = i + 1;
                }
                proof {
                    assert(vis@.take(i as int) =~= vis@);
                }
                let ghost mid = out@;
                let vs = &game.players[actor_ref.index as usize].night_visits;
                let mut j: usize = 0;
                while j < vs.len()
                    invariant
                        j <= vs@.len(),
                        vs@ == visits_of(*game, actor_ref),
                        out@ == mid + drink_targets(actor_ref, vs@.take(j as int)),
                    decreases vs@.len() - j,
                {
                    proof {
                        assert(vs@.take(j as int + 1).drop_last() =~= vs@.take(j as int));
                    }
                    let v = vs[j];
                    out.push(Effect::Confuse { target: v.target, duration: 1 });
                    out.push(Effect::DrunkAura { target: v.target, duration: 1 });
                    if v.attack {
                        out.push(
                            Effect::Attack {
                                attacker: actor_ref,
                                target: v.target,
                                killer: GraveKiller::Role(Role::Tavernkeep),
                                power: AttackPower::ArmorPiercing,
                                leave_death_note: true,
                            },
                        );
                    }
                    proof {
                        assert(out@ =~= mid + drink_targets(actor_ref, vs@.take(j as int + 1)));
                    }
                    j = j + 1;
                }
                proof {
                    assert(vs@.take(j as int) =~= vs@);
                }
                out
            },
            OnMidnightPriority::Kill => {
                if game.day_number == 1 {
                    return out;
                }
                match first_visit(game, actor_ref) {
                    Some(v) => {
                        if v.attack {
                            out.push(
                                Effect::Attack {
                                    attacker: actor_ref,
                                    target: v.target,
                                    killer: GraveKiller::Role(Role::Tavernkeep),
                                    power: AttackPower::ArmorPiercing,
                                    leave_death_note: true,
                                },
                            );
                        }
                    },
                    None => {},
                }
                out
            },
            _ => out,
        }
    }

    /// The attack controller: a player at night, not itself, insiders
    /// allowed, never grayed out. (The drink controller is built and then
    /// dropped, so it is not offered.)
    pub fn controller_parameters_map(&self, game: &Game, actor_ref: PlayerReference) -> (r: ControllerParameters)
        ensures
            r.id == ControllerID::role(actor_ref, Role::Tavernkeep, 1),
            r.available == (AvailableAbilitySelection::SinglePlayerTypical {
                can_select_self: false,
                can_select_insiders: true,
            }),
            r.night_typical,
            !r.grayed_out,
            r.allowed_players@ == seq![actor_ref],
    {
        ControllerParameters {
            id: ControllerID::role(actor_ref, Role::Tavernkeep, 1),
            available: AvailableAbilitySelection::SinglePlayerTypical {
                can_select_self: false,
                can_select_insiders: true,
            },
            grayed_out: false,
            night_typical: true,
            reset_on_phase_start: None,
            dont_save: false,
            default_selection: None,
            allowed_players: vec![actor_ref],
        }
    }

    /// The drink visits, as attacks, then the plain attack-controller visits.
    pub fn convert_selection_to_visits(&self, game: &Game, actor_ref: PlayerReference) -> (r: Vec<Visit>)
        ensures
            r@ == selection_visits(*game, actor_ref, Role::Tavernkeep, 0, true) + selection_visits(
                *game,
                actor_ref,
                Role::Tavernkeep,
                1,
                false,
            ),
    {
        let mut visits = convert_controller_selection_to_visits(game, actor_ref, Role::Tavernkeep, 0, true);
        let mut more = convert_controller_selection_to_visits(game, actor_ref, Role::Tavernkeep, 1, false);
        visits.append(&mut more);
        visits
    }
}

} // verus!

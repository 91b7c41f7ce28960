//! The telepath: blocks the players it visits, can kill them, and reads
//! their night reports.

use vstd::prelude::*;
use crate::game::{Game, data, valid_player, game_ok};
use crate::game::player::PlayerReference;
use crate::game::chat::ChatMessageVariant;
use crate::game::effect::{Effect, GraveKiller, same_effects, lemma_same_effects_push};
use crate::game::attack_power::AttackPower;
use crate::game::visit::Visit;
use crate::game::ability_input::{
    ControllerID, ControllerParameters, AvailableAbilitySelection, saved_boolean, get_boolean_selection,
};
use super::{Role, Priority, spec_wardblock_immune, spec_roleblock_immune};
use super::common_role::{visits_of, visits_ok, selection_visits, convert_controller_selection_to_visits};

verus! {

#[derive(Clone, Copy, Debug, Default)]
pub struct Telepath;

/// What a blocked player is told: a wardblock when that message is chosen
/// and their role is not immune to wards, else a roleblock saying whether
/// their role is immune to it.
pub open spec fn block_message(wardblock_message: bool, role: Role) -> ChatMessageVariant {
    if wardblock_message && !spec_wardblock_immune(role) {
        ChatMessageVariant::Wardblocked
    } else {
        ChatMessageVariant::RoleBlocked { immune: spec_roleblock_immune(role) }
    }
}

pub open spec fn block_effects(game: Game, wardblock_message: bool, vs: Seq<Visit>) -> Seq<Effect>
    decreases vs.len(),
{
    if vs.len() == 0 {
        Seq::empty()
    } else {
        let t = vs.last().target;
        block_effects(game, wardblock_message, vs.drop_last()) + seq![
            Effect::Roleblock { target: t },
            Effect::NightMessage { to: t, message: block_message(wardblock_message, data(game, t).role) },
        ]
    }
}

pub open spec fn attack_effects(actor: PlayerReference, vs: Seq<Visit>) -> Seq<Effect>
    decreases vs.len(),
{
    if vs.len() == 0 {
        Seq::empty()
    } else {
        let before = attack_effects(actor, vs.drop_last());
        if vs.last().attack {
            before.push(
                Effect::Attack {
                    attacker: actor,
                    target: vs.last().target,
                    killer: GraveKiller::Role(Role::Telepath),
                    power: AttackPower::ArmorPiercing,
                    leave_death_note: true,
                },
            )
        } else {
            before
        }
    }
}

/// What the telepath reads of a player it visited: a line naming them, each
/// of their night messages as a stolen message, in order, and a closing line.
pub open spec fn stolen_messages(game: Game, actor: PlayerReference, target: PlayerReference) -> Seq<Effect> {
    seq![Effect::NightMessage { to: actor, message: ChatMessageVariant::ReceivedMessagesStart { recipient: target } }]
        + data(game, target).night_messages@.map_values(
        |m: ChatMessageVariant|
            Effect::NightMessage { to: actor, message: ChatMessageVariant::TargetsMessage { message: Box::new(m) } },
    ) + seq![Effect::NightMessage { to: actor, message: ChatMessageVariant::ReceivedMessagesEnd }]
}

/// The reports of the players visited, visit after visit.
pub open spec fn steal_effects(game: Game, actor: PlayerReference, vs: Seq<Visit>) -> Seq<Effect>
    decreases vs.len(),
{
    if vs.len() == 0 {
        Seq::empty()
    } else {
        steal_effects(game, actor, vs.drop_last()) + stolen_messages(game, actor, vs.last().target)
    }
}

/// The telepath's night: it blocks everyone it visits (the message chosen in
/// its wardblock controller decides what they are told), attacks those it
/// visits with an attack after the first night, and reads the reports of
/// everyone it visits.
pub open spec fn telepath_night(game: Game, actor: PlayerReference, priority: Priority) -> Seq<Effect> {
    let vs = visits_of(game, actor);
    match priority {
        Priority::Roleblock => block_effects(
            game,
            saved_boolean(game, ControllerID::role(actor, Role::Warden, 1)) == Some(true),
            vs,
        ),
        Priority::Kill => if game.day_number == 1 {
            Seq::empty()
        } else {
            attack_effects(actor, vs)
        },
        Priority::StealMessages => steal_effects(game, actor, vs),
        _ => Seq::empty(),
    }
}

impl Telepath {
    pub fn do_night_action(&self, game: &Game, actor_ref: PlayerReference, priority: Priority) -> (r: Vec<Effect>)
        requires
            game_ok(*game),
            visits_ok(*game),
            valid_player(*game, actor_ref),
        ensures
            priority != Priority::StealMessages ==> r@ == telepath_night(*game, actor_ref, priority),
            priority == Priority::StealMessages ==> same_effects(r@, telepath_night(*game, actor_ref, priority)),
    {
        let mut out: Vec<Effect> = Vec::new();
        let vs = &game.players[actor_ref.index as usize].night_visits;
        match priority {
            Priority::Roleblock => {
                let ward = match get_boolean_selection(game, ControllerID::role(actor_ref, Role::Warden, 1)) {
                    Some(b) => b,
                    None => false,
                };
                let mut i: usize = 0;
                while i < vs.len()
                    invariant
                        i <= vs@.len(),
                        vs@ == visits_of(*game, actor_ref),
                        valid_player(*game, actor_ref),
                        visits_ok(*game),
                        ward == (saved_boolean(*game, ControllerID::role(actor_ref, Role::Warden, 1)) == Some(true)),
                        out@ == block_effects(*game, ward, vs@.take(i as int)),
                    decreases vs@.len() - i,
                {
                    proof {
                        assert(vs@.take(i as int + 1).drop_last() =~= vs@.take(i as int));
                    }
                    let t = vs[i].target;
                    assert(valid_player(*game, visits_of(*game, actor_ref)[i as int].target));
                    let role = game.players[t.index as usize].role;
                    let message = if ward && !role.wardblock_immune() {
                        ChatMessageVariant::Wardblocked
                    } else {
                        ChatMessageVariant::RoleBlocked { immune: role.roleblock_immune() }
                    };
                    out.push(Effect::Roleblock { target: t });
                    out.push(Effect::NightMessage { to: t, message });
                    proof {
                        assert(out@ =~= block_effects(*game, ward, vs@.take(i as int + 1)));
                    }
                    i = i + 1;
                }
                proof {
                    assert(vs@.take(i as int) =~= vs@);
                }
                out
            },
            Priority::Kill => {
                if game.day_number == 1 {
                    return out;
                }
                let mut i: usize = 0;
                while i < vs.len()
                    invariant
                        i <= vs@.len(),
                        vs@ == visits_of(*game, actor_ref),
                        out@ == attack_effects(actor_ref, vs@.take(i as int)),
                    decreases vs@.len() - i,
                {
                    proof {
                        assert(vs@.take(i as int + 1).drop_last() =~= vs@.take(i as int));
                    }
                    if vs[i].attack {
                        out.push(
                            Effect::Attack {
                                attacker: actor_ref,
                                target: vs[i].target,
                                killer: GraveKiller::Role(Role::Telepath),
                                power: AttackPower::ArmorPiercing,
                                leave_death_note: true,
                            },
                        );
                    }
                    i = i + 1;
                }
                proof {
                    assert(vs@.take(i as int) =~= vs@);
                }
                out
            },
            Priority::StealMessages => {
                let mut i: usize = 0;
                while i < vs.len()
                    invariant
                        i <= vs@.len(),
                        vs@ == visits_of(*game, actor_ref),
                        valid_player(*game, actor_ref),
                        visits_ok(*game),
                        same_effects(out@, steal_effects(*game, actor_ref, vs@.take(i as int))),
                    decreases vs@.len() - i,
                {
                    let t = vs[i].target;
                    assert(valid_player(*game, visits_of(*game, actor_ref)[i as int].target));
                    let ghost done = steal_effects(*game, actor_ref, vs@.take(i as int));
                    let ms = &game.players[t.index as usize].night_messages;
                    let ghost wrapped = ms@.map_values(
                        |m: ChatMessageVariant|
                            Effect::NightMessage { to: actor_ref, message: ChatMessageVariant::TargetsMessage { message: Box::new(m) } },
                    );
                    let start = Effect::NightMessage {
                        to: actor_ref,
                        message: ChatMessageVariant::ReceivedMessagesStart { recipient: t },
                    };
                    proof {
                        lemma_same_effects_push(out@, done, start, start);
                    }
                    out.push(start);
                    let mut j: usize = 0;
                    while j < ms.len()
                        invariant
                            j <= ms@.len(),
                            ms@ == data(*game, t).night_messages@,
                            wrapped == ms@.map_values(
                                |m: ChatMessageVariant|
                                    Effect::NightMessage { to: actor_ref, message: ChatMessageVariant::TargetsMessage { message: Box::new(m) } },
                            ),
                            same_effects(
                                out@,
                                done + seq![Effect::NightMessage { to: actor_ref, message: ChatMessageVariant::ReceivedMessagesStart { recipient: t } }]
                                    + wrapped.take(j as int),
                            ),
                        decreases ms@.len() - j,
                    {
                        let copy = ms[j].duplicate();
                        let e = Effect::NightMessage {
                            to: actor_ref,
                            message: ChatMessageVariant::TargetsMessage { message: Box::new(copy) },
                        };
                        let ghost before = done + seq![Effect::NightMessage { to: actor_ref, message: ChatMessageVariant::ReceivedMessagesStart { recipient: t } }]
                            + wrapped.take(j as int);
                        proof {
                            lemma_same_effects_push(out@, before, e, wrapped[j as int]);
                            assert(before.push(wrapped[j as int]) =~= done + seq![Effect::NightMessage { to: actor_ref, message: ChatMessageVariant::ReceivedMessagesStart { recipient: t } }]
                                + wrapped.take(j as int + 1));
                        }
                        out.push(e);
                        j = j + 1;
                    }
                    let end = Effect::NightMessage { to: actor_ref, message: ChatMessageVariant::ReceivedMessagesEnd };
                    proof {
                        assert(wrapped.take(j as int) =~= wrapped);
                        let before = done + seq![Effect::NightMessage { to: actor_ref, message: ChatMessageVariant::ReceivedMessagesStart { recipient: t } }]
                            + wrapped;
                        lemma_same_effects_push(out@, before, end, end);
                        assert(vs@.take(i as int + 1).drop_last() =~= vs@.take(i as int));
                        assert(vs@.take(i as int + 1).last().target == t);
                        assert(before.push(end) =~= steal_effects(*game, actor_ref, vs@.take(i as int + 1)));
                    }
                    out.push(end);
                    i = i + 1;
                }
                proof {
                    assert(vs@.take(i as int) =~= vs@);
                }
                out
            },
            _ => out,
        }
    }

    /// Three controllers: a player to block (grayed out on the first night),
    /// a player to attack, and a yes-or-no choice.
    pub fn controller_parameters_map(&self, game: &Game, actor_ref: PlayerReference) -> (r: Vec<ControllerParameters>)
        ensures
            r@.len() == 3,
            r@[0].id == ControllerID::role(actor_ref, Role::Telepath, 0),
            r@[0].available == (AvailableAbilitySelection::SinglePlayerTypical {
                can_select_self: false,
                can_select_insiders: true,
            }),
            r@[0].grayed_out == (game.day_number <= 1),
            r@[0].night_typical,
            r@[1].id == ControllerID::role(actor_ref, Role::Telepath, 1),
            r@[1].available == (AvailableAbilitySelection::SinglePlayerTypical {
                can_select_self: false,
                can_select_insiders: true,
            }),
            !r@[1].grayed_out,
            r@[1].night_typical,
            r@[2].id == ControllerID::role(actor_ref, Role::Telepath, 2),
            r@[2].available == AvailableAbilitySelection::Boolean,
            !r@[2].grayed_out,
    {
        let block = ControllerParameters {
            id: ControllerID::role(actor_ref, Role::Telepath, 0),
            available: AvailableAbilitySelection::SinglePlayerTypical {
                can_select_self: false,
                can_select_insiders: true,
            },
            grayed_out: game.day_number <= 1,
            night_typical: true,
            reset_on_phase_start: None,
            dont_save: false,
            default_selection: None,
            allowed_players: vec![actor_ref],
        };
        let attack = ControllerParameters {
            id: ControllerID::role(actor_ref, Role::Telepath, 1),
            available: AvailableAbilitySelection::SinglePlayerTypical {
                can_select_self: false,
                can_select_insiders: true,
            },
            grayed_out: false,
            night_typical: true,
            reset_on_phase_start: None,
            dont_save: false,
            default_selection: None,
            allowed_players: vec![actor_ref],
        };
        let choice = ControllerParameters {
            id: ControllerID::role(actor_ref, Role::Telepath, 2),
            available: AvailableAbilitySelection::Boolean,
            grayed_out: false,
            night_typical: false,
            reset_on_phase_start: None,
            dont_save: false,
            default_selection: None,
            allowed_players: vec![actor_ref],
        };
        vec![block, attack, choice]
    }

    /// The visits of the first controller, as attacks, then of the second.
    pub fn convert_selection_to_visits(&self, game: &Game, actor_ref: PlayerReference) -> (r: Vec<Visit>)
        ensures
            r@ == selection_visits(*game, actor_ref, Role::Telepath, 0, true) + selection_visits(
                *game,
                actor_ref,
                Role::Telepath,
                1,
                false,
            ),
    {
        let mut visits = convert_controller_selection_to_visits(game, actor_ref, Role::Telepath, 0, true);
        let mut more = convert_controller_selection_to_visits(game, actor_ref, Role::Telepath, 1, false);
        visits.append(&mut more);
        visits
    }
}

} // verus!

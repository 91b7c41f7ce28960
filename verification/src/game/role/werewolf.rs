//! The werewolf: tracks players, follows their visits, and rampages at the
//! house of a tracked player.

use vstd::prelude::*;
use crate::game::{Game, data, valid_player, game_ok, tagged, tagged_players, has_tag};
use crate::game::player::{PlayerIndex, PlayerReference};
use crate::game::chat::ChatMessageVariant;
use crate::game::effect::{Effect, GraveKiller, TagSetID};
use crate::game::attack_power::AttackPower;
use crate::game::phase::PhaseType;
use crate::game::visit::Visit;
use crate::game::ability_input::{
    ControllerID, ControllerParameters, AvailableAbilitySelection, saved_player_list,
    get_player_list_selection,
};
use crate::random::shuffle;
use super::{Role, OnMidnightPriority, GetClientRoleState};
use super::common_role::{
    visits_of, spec_first_visit, first_visit, all_visits, all_night_visits, target_indices,
    visited_indices, selection_visits, convert_controller_selection_to_visits,
};

verus! {

#[derive(Clone, Copy, Debug, Default)]
pub struct Werewolf;

#[derive(Clone, Copy, Debug)]
pub struct ClientRoleState;

/// The players the werewolf `actor` tracks.
pub open spec fn sniffed(game: Game, actor: PlayerReference) -> Seq<PlayerReference> {
    tagged(game, TagSetID::WerewolfTracked(actor))
}

/// How many of the first `n` players are alive or are `actor`.
pub open spec fn alive_or_self_upto(game: Game, actor: PlayerReference, n: int) -> nat
    decreases n,
{
    if n <= 0 {
        0
    } else {
        let p = PlayerReference { index: (n - 1) as u8 };
        alive_or_self_upto(game, actor, n - 1) + if data(game, p).alive || p == actor {
            1nat
        } else {
            0nat
        }
    }
}

/// The werewolf is enraged once it tracks at least two thirds of the players
/// that are alive or are itself.
pub open spec fn enraged(game: Game, actor: PlayerReference) -> bool {
    sniffed(game, actor).len() * 3 >= alive_or_self_upto(game, actor, game.players@.len() as int) * 2
}

/// The rampage: an attack on everyone whose visit to `target` tonight is not
/// the werewolf's own first visit, in the order of the night's visits.
pub open spec fn rampage(actor: PlayerReference, first: Visit, target: PlayerReference, visits: Seq<Visit>) -> Seq<Effect>
    decreases visits.len(),
{
    if visits.len() == 0 {
        Seq::empty()
    } else {
        let before = rampage(actor, first, target, visits.drop_last());
        let v = visits.last();
        if v != first && v.target == target {
            before.push(werewolf_attack(actor, v.visitor))
        } else {
            before
        }
    }
}

pub open spec fn werewolf_attack(actor: PlayerReference, target: PlayerReference) -> Effect {
    Effect::Attack {
        attacker: actor,
        target,
        killer: GraveKiller::Role(Role::Werewolf),
        power: AttackPower::ArmorPiercing,
        leave_death_note: true,
    }
}

/// The werewolf's deception step: its first visit becomes an attack when it
/// is enraged or its target went out tonight.
pub open spec fn werewolf_deception(game: Game, actor: PlayerReference) -> Seq<Effect> {
    match spec_first_visit(game, actor) {
        Some(v) => if enraged(game, actor) || (valid_player(game, v.target) && visits_of(game, v.target).len() > 0) {
            seq![Effect::MarkAttack { visitor: actor, target: v.target }]
        } else {
            Seq::empty()
        },
        None => Seq::empty(),
    }
}

/// The deception step: with a first visit, the werewolf marks it as an
/// attack exactly when it tracks at least two thirds of the players alive or
/// itself, or its target made a visit tonight; without one it does nothing.
pub proof fn lemma_werewolf_deception(game: Game, actor: PlayerReference)
    ensures
        spec_first_visit(game, actor) is None ==> werewolf_deception(game, actor).len() == 0,
        spec_first_visit(game, actor) matches Some(v) ==> {
            let rage = sniffed(game, actor).len() * 3 >= alive_or_self_upto(game, actor, game.players@.len() as int) * 2;
            let went_out = valid_player(game, v.target) && visits_of(game, v.target).len() > 0;
            &&& (rage || went_out) ==> werewolf_deception(game, actor) == seq![Effect::MarkAttack { visitor: actor, target: v.target }]
            &&& !(rage || went_out) ==> werewolf_deception(game, actor).len() == 0
        },
{
}

/// The werewolf's kill step: an untracked target becomes tracked; a tracked
/// one, after the first night, is rampaged on, and attacked itself when the
/// werewolf's visit is an attack.
pub open spec fn werewolf_kill(game: Game, actor: PlayerReference) -> Seq<Effect> {
    match spec_first_visit(game, actor) {
        Some(first) => {
            let target = first.target;
            if !sniffed(game, actor).contains(target) {
                seq![Effect::AddTag { set: TagSetID::WerewolfTracked(actor), player: target }]
            } else if game.day_number <= 1 {
                Seq::empty()
            } else {
                rampage(actor, first, target, all_visits(game)) + if first.attack {
                    seq![werewolf_attack(actor, target)]
                } else {
                    Seq::empty()
                }
            }
        },
        None => Seq::empty(),
    }
}

/// Whether `e` tells `actor` where the tracked player `p` went, in some order.
pub open spec fn is_tracking_report(game: Game, actor: PlayerReference, p: PlayerReference, e: Effect) -> bool {
    match e {
        Effect::NightMessage {
            to,
            message: ChatMessageVariant::WerewolfTrackingResult { tracked_player, players },
        } => to == actor && tracked_player == p.index && players@.to_multiset() == target_indices(
            game,
            p,
        ).to_multiset(),
        _ => false,
    }
}

/// The players tracked once the night's pick is added, in the order tracked.
pub open spec fn sniffed_after_pick(game: Game, actor: PlayerReference) -> Seq<PlayerReference> {
    let before = sniffed(game, actor);
    match saved_player_list(game, ControllerID::role(actor, Role::Werewolf, 1)) {
        Some(list) => if list.len() > 0 && !before.contains(list[0]) {
            before.push(list[0])
        } else {
            before
        },
        None => before,
    }
}

fn count_alive_or_self(game: &Game, actor: PlayerReference) -> (r: usize)
    requires
        game_ok(*game),
    ensures
        r == alive_or_self_upto(*game, actor, game.players@.len() as int),
        r <= game.players@.len(),
{
    let mut c: usize = 0;
    let mut i: usize = 0;
    while i < game.players.len()
        invariant
            i <= game.players@.len(),
            game_ok(*game),
            c == alive_or_self_upto(*game, actor, i as int),
            c <= i,
        decreases game.players@.len() - i,
    {
        let p = PlayerReference { index: i as u8 };
        if game.players[i].alive || p == actor {
            c = c + 1;
        }
        i = i + 1;
    }
    c
}

fn is_enraged(game: &Game, actor: PlayerReference) -> (r: bool)
    requires
        game_ok(*game),
    ensures
        r == enraged(*game, actor),
{
    let t = tagged_players(game, TagSetID::WerewolfTracked(actor));
    let c = count_alive_or_self(game, actor);
    assert(c <= 256) by {
        assert(crate::game::game_ok(*game));
    }
    let a: u64 = if t.len() as u64 <= 1000000 { t.len() as u64 } else { 1000000 };
    if t.len() > 1000000 {
        proof {
            assert(t@.len() * 3 >= c * 2);
        }
        return true;
    }
    a * 3 >= (c as u64) * 2
}

impl Werewolf {
    pub fn on_midnight(&self, game: &Game, actor_ref: PlayerReference, priority: OnMidnightPriority) -> (r: Vec<Effect>)
        requires
            game_ok(*game),
            valid_player(*game, actor_ref),
        ensures
            priority == OnMidnightPriority::Deception ==> r@ == werewolf_deception(*game, actor_ref),
            priority == OnMidnightPriority::Kill ==> r@ == werewolf_kill(*game, actor_ref),
            priority == OnMidnightPriority::Investigative ==> {
                &&& r@.len() == sniffed(*game, actor_ref).len()
                &&& forall|i: int|
                    0 <= i < r@.len() ==> is_tracking_report(*game, actor_ref, sniffed(*game, actor_ref)[i], #[trigger] r@[i])
            },
            priority != OnMidnightPriority::Deception && priority != OnMidnightPriority::Kill
                && priority != OnMidnightPriority::Investigative ==> r@.len() == 0,
    {
        let mut out: Vec<Effect> = Vec::new();
        match priority {
            OnMidnightPriority::Deception => {
                let first = match first_visit(game, actor_ref) {
                    Some(v) => v,
                    None => return out,
                };
                let target = first.target;
                let went_out = (target.index as usize) < game.players.len()
                    && game.players[target.index as usize].night_visits.len() > 0;
                if is_enraged(game, actor_ref) || went_out {
                    out.push(Effect::MarkAttack { visitor: actor_ref, target });
                }
                out
            },
            OnMidnightPriority::Kill => {
                let first = match first_visit(game, actor_ref) {
                    Some(v) => v,
                    None => return out,
                };
                let target = first.target;
                if !has_tag(game, TagSetID::WerewolfTracked(actor_ref), target) {
                    out.push(Effect::AddTag { set: TagSetID::WerewolfTracked(actor_ref), player: target });
                    return out;
                }
                if game.day_number <= 1 {
                    return out;
                }
                let visits = all_night_visits(game);
                let mut i: usize = 0;
                while i < visits.len()
                    invariant
                        i <= visits@.len(),
                        out@ == rampage(actor_ref, first, target, visits@.take(i as int)),
                    decreases visits@.len() - i,
                {
                    proof {
                        assert(visits@.take(i as int + 1).drop_last() =~= visits@.take(i as int));
                    }
                    let v = visits[i];
                    if v != first && v.target == target {
                        out.push(
                            Effect::Attack {
                                attacker: actor_ref,
                                target: v.visitor,
                                killer: GraveKiller::Role(Role::Werewolf),
                                power: AttackPower::ArmorPiercing,
                                leave_death_note: true,
                            },
                        );
                    }
                    i = i + 1;
                }
                proof {
                    assert(visits@.take(i as int) =~= visits@);
                }
                if first.attack {
                    out.push(
                        Effect::Attack {
                            attacker: actor_ref,
                            target,
                            killer: GraveKiller::Role(Role::Werewolf),
                            power: AttackPower::ArmorPiercing,
                            leave_death_note: true,
                        },
                    );
                }
                out
            },
            OnMidnightPriority::Investigative => {
                let t = tagged_players(game, TagSetID::WerewolfTracked(actor_ref));
                let mut i: usize = 0;
                while i < t.len()
                    invariant
                        i <= t@.len(),
                        t@ == sniffed(*game, actor_ref),
                        out@.len() == i,
                        forall|j: int| 0 <= j < i ==> is_tracking_report(*game, actor_ref, t@[j], #[trigger] out@[j]),
                    decreases t@.len() - i,
                {
                    let p = t[i];
                    let mut players = visited_indices(game, p);
                    shuffle(&mut players);
                    out.push(
                        Effect::NightMessage {
                            to: actor_ref,
                            message: ChatMessageVariant::WerewolfTrackingResult { tracked_player: p.index, players },
                        },
                    );
                    i = i + 1;
                }
                out
            },
            _ => out,
        }
    }

    /// Two controllers: the night visit (not itself, insiders allowed), and
    /// a player to track, which only the werewolf may use, grayed out once
    /// its ability is gone and cleared at nightfall.
    pub fn controller_parameters_map(&self, game: &Game, actor_ref: PlayerReference) -> (r: Vec<ControllerParameters>)
        requires
            valid_player(*game, actor_ref),
        ensures
            r@.len() == 2,
            r@[0].id == ControllerID::role(actor_ref, Role::Werewolf, 0),
            r@[0].available == (AvailableAbilitySelection::SinglePlayerTypical {
                can_select_self: false,
                can_select_insiders: true,
            }),
            r@[0].night_typical,
            !r@[0].grayed_out,
            r@[1].id == ControllerID::role(actor_ref, Role::Werewolf, 1),
            r@[1].available == (AvailableAbilitySelection::SinglePlayerTypical {
                can_select_self: false,
                can_select_insiders: true,
            }),
            !r@[1].night_typical,
            r@[1].grayed_out == data(*game, actor_ref).ability_deactivated_from_death,
            r@[1].reset_on_phase_start == Some(PhaseType::Night),
            r@[0].allowed_players@ == seq![actor_ref],
            r@[1].allowed_players@ == seq![actor_ref],
    {
        let visit = ControllerParameters {
            id: ControllerID::role(actor_ref, Role::Werewolf, 0),
            available: AvailableAbilitySelection::SinglePlayerTypical {
                can_select_self: false,
                can_select_insiders: true,
            },
            grayed_out: false,
            night_typical: true,
            reset_on_phase_start: None,
            dont_save: false,
            default_selection: None,
            allowed_players: vec![actor_ref],
        };
        let track = ControllerParameters {
            id: ControllerID::role(actor_ref, Role::Werewolf, 1),
            available: AvailableAbilitySelection::SinglePlayerTypical {
                can_select_self: false,
                can_select_insiders: true,
            },
            grayed_out: game.players[actor_ref.index as usize].ability_deactivated_from_death,
            night_typical: false,
            reset_on_phase_start: Some(PhaseType::Night),
            dont_save: false,
            default_selection: None,
            allowed_players: vec![actor_ref],
        };
        vec![visit, track]
    }

    /// The werewolf visits the player saved in its first controller.
    pub fn convert_selection_to_visits(&self, game: &Game, actor_ref: PlayerReference) -> (r: Vec<Visit>)
        ensures
            r@ == selection_visits(*game, actor_ref, Role::Werewolf, 0, false),
    {
        convert_controller_selection_to_visits(game, actor_ref, Role::Werewolf, 0, false)
    }

    /// At nightfall the player picked to track becomes tracked, and every
    /// tracked player is told they are tracked.
    pub fn on_phase_start(&self, game: &Game, actor_ref: PlayerReference, phase: PhaseType) -> (r: Vec<Effect>)
        ensures
            phase == PhaseType::Night ==> r@ == pick_effects(*game, actor_ref) + sniffed_after_pick(*game, actor_ref).map_values(
                |p: PlayerReference| Effect::PrivateMessage { to: p, message: ChatMessageVariant::WerewolfTracked },
            ),
            phase != PhaseType::Night ==> r@.len() == 0,
    {
        let mut out: Vec<Effect> = Vec::new();
        if phase != PhaseType::Night {
            return out;
        }
        let mut t = tagged_players(game, TagSetID::WerewolfTracked(actor_ref));
        match get_player_list_selection(game, ControllerID::role(actor_ref, Role::Werewolf, 1)) {
            Some(list) => {
                if list.len() > 0 {
                    let target = list[0];
                    out.push(Effect::AddTag { set: TagSetID::WerewolfTracked(actor_ref), player: target });
                    if !crate::game::vec_contains(&t, target) {
                        t.push(target);
                    }
                }
            },
            None => {},
        }
        let ghost start = out@;
        let mut i: usize = 0;
        while i < t.len()
            invariant
                i <= t@.len(),
                out@ =~= start + t@.map_values(
                    |p: PlayerReference| Effect::PrivateMessage { to: p, message: ChatMessageVariant::WerewolfTracked },
                ).take(i as int),
            decreases t@.len() - i,
        {
            out.push(Effect::PrivateMessage { to: t[i], message: ChatMessageVariant::WerewolfTracked });
            i = i + 1;
        }
        proof {
            assert(t@.map_values(
                |p: PlayerReference| Effect::PrivateMessage { to: p, message: ChatMessageVariant::WerewolfTracked },
            ).take(i as int) =~= t@.map_values(
                |p: PlayerReference| Effect::PrivateMessage { to: p, message: ChatMessageVariant::WerewolfTracked },
            ));
        }
        out
    }
}

/// Tracking the player picked for tonight, if one was picked.
pub open spec fn pick_effects(game: Game, actor: PlayerReference) -> Seq<Effect> {
    match saved_player_list(game, ControllerID::role(actor, Role::Werewolf, 1)) {
        Some(list) => if list.len() > 0 {
            seq![Effect::AddTag { set: TagSetID::WerewolfTracked(actor), player: list[0] }]
        } else {
            Seq::empty()
        },
        None => Seq::empty(),
    }
}

impl GetClientRoleState<ClientRoleState> for Werewolf {
    fn get_client_role_state(self, game: &Game, actor_ref: PlayerReference) -> ClientRoleState {
        ClientRoleState
    }
}

} // verus!

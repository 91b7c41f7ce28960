//! The warden: imprisons up to three players for a night; each chooses to
//! live or die, and the warden kills those who chose to die, or all of them
//! when none did.

use vstd::prelude::*;
use crate::vec_set::{VecSet, dedup};
use crate::game::{Game, data, valid_player, game_ok, alive, filtered, filter_players};
use crate::game::player::PlayerReference;
use crate::game::chat::{ChatGroup, ChatMessageVariant};
use crate::game::effect::{Effect, GraveKiller};
use crate::game::attack_power::AttackPower;
use crate::game::phase::PhaseType;
use crate::game::ability_input::{
    ControllerID, ControllerParameters, AvailableAbilitySelection, saved_boolean, get_boolean_selection,
    saved_player_list, get_player_list_selection,
};
use super::{Role, OnMidnightPriority};
use super::common_role::copy_players;
use super::psychopomp::with_group;

verus! {

#[derive(Debug)]
pub struct Warden {
    /// The prisoners in the order chosen; the `i`-th has the live-or-die
    /// controller of index `i`.
    pub players_in_prison: Vec<PlayerReference>,
}

impl Default for Warden {
    fn default() -> (r: Self)
        ensures
            r.players_in_prison@.len() == 0,
    {
        Warden { players_in_prison: Vec::new() }
    }
}

pub const MAX_PLAYERS_IN_PRISON: u8 = 3;

/// Whether prisoner `p` chose to die.
pub open spec fn chose_die(game: Game, actor: PlayerReference, p: PlayerReference) -> bool {
    saved_boolean(game, ControllerID::WardenLiveOrDie { warden: actor, player: p }) == Some(false)
}

/// The prisoners the warden kills: those who chose to die, each once, or
/// all of them when none did.
pub open spec fn spec_players_to_kill(game: Game, actor: PlayerReference, prison: Seq<PlayerReference>) -> Seq<PlayerReference> {
    let die = dedup(prison.filter(|p: PlayerReference| chose_die(game, actor, p)));
    if die.len() == 0 {
        dedup(prison)
    } else {
        die
    }
}

pub open spec fn warden_attack(actor: PlayerReference, p: PlayerReference) -> Effect {
    Effect::Attack {
        attacker: actor,
        target: p,
        killer: GraveKiller::Role(Role::Warden),
        power: AttackPower::ArmorPiercing,
        leave_death_note: true,
    }
}

/// The warden's night: it wards itself when it chose to; after the first
/// night it blocks and then kills its prisoners as `spec_players_to_kill`
/// says, never itself.
pub open spec fn warden_night(game: Game, actor: PlayerReference, prison: Seq<PlayerReference>, priority: OnMidnightPriority) -> Seq<Effect> {
    match priority {
        OnMidnightPriority::Ward => if saved_boolean(game, ControllerID::role(actor, Role::Warden, 1)) == Some(true) {
            seq![Effect::Ward { target: actor }]
        } else {
            Seq::empty()
        },
        OnMidnightPriority::Roleblock => if game.day_number == 1 {
            Seq::empty()
        } else {
            prison.filter(|p: PlayerReference| other_than(actor, p)).map_values(|p: PlayerReference| Effect::Roleblock { target: p })
        },
        OnMidnightPriority::Kill => if game.day_number == 1 {
            Seq::empty()
        } else {
            spec_players_to_kill(game, actor, prison).filter(|p: PlayerReference| other_than(actor, p)).map_values(
                |p: PlayerReference| warden_attack(actor, p),
            )
        },
        _ => Seq::empty(),
    }
}

pub open spec fn other_than(actor: PlayerReference, p: PlayerReference) -> bool {
    p != actor
}

/// The warden's chat is told who is imprisoned.
pub open spec fn is_prison_announcement(e: Effect, list: Seq<PlayerReference>) -> bool {
    match e {
        Effect::GroupMessage { group, message: ChatMessageVariant::WardenPlayersImprisoned { players } } => group
            == ChatGroup::Warden && players@ == list,
        _ => false,
    }
}

/// A prisoner is told who is imprisoned.
pub open spec fn is_prison_notice(e: Effect, p: PlayerReference, list: Seq<PlayerReference>) -> bool {
    match e {
        Effect::InsiderOrPrivateMessage { to, message: ChatMessageVariant::WardenPlayersImprisoned { players } } => to
            == p && players@ == list,
        _ => false,
    }
}

/// The effects of `ps` with `actor` left out, one `f` each, in order.
fn push_each_but(ps: &Vec<PlayerReference>, actor: PlayerReference, attack: bool, out: &mut Vec<Effect>)
    ensures
        attack ==> final(out)@ == old(out)@ + ps@.filter(|p: PlayerReference| other_than(actor, p)).map_values(
            |p: PlayerReference| warden_attack(actor, p),
        ),
        !attack ==> final(out)@ == old(out)@ + ps@.filter(|p: PlayerReference| other_than(actor, p)).map_values(
            |p: PlayerReference| Effect::Roleblock { target: p },
        ),
{
    let ghost start = old(out)@;
    let ghost pred = |p: PlayerReference| other_than(actor, p);
    let mut i: usize = 0;
    while i < ps.len()
        invariant
            i <= ps@.len(),
            pred == (|p: PlayerReference| other_than(actor, p)),
            attack ==> out@ == start + ps@.take(i as int).filter(pred).map_values(
                |p: PlayerReference| warden_attack(actor, p),
            ),
            !attack ==> out@ == start + ps@.take(i as int).filter(pred).map_values(
                |p: PlayerReference| Effect::Roleblock { target: p },
            ),
        decreases ps@.len() - i,
    {
        let p = ps[i];
        let ghost kept = ps@.take(i as int).filter(pred);
        if p != actor {
            if attack {
                out.push(
                    Effect::Attack {
                        attacker: actor,
                        target: p,
                        killer: GraveKiller::Role(Role::Warden),
                        power: AttackPower::ArmorPiercing,
                        leave_death_note: true,
                    },
                );
            } else {
                out.push(Effect::Roleblock { target: p });
            }
        }
        proof {
            reveal_with_fuel(Seq::filter, 1);
            let t1 = ps@.take(i as int + 1);
            assert(t1.drop_last() =~= ps@.take(i as int));
            assert(t1.last() == p);
            if p != actor {
                assert(t1.filter(pred) == kept.push(p));
                if attack {
                    assert(out@ =~= start + kept.push(p).map_values(|p: PlayerReference| warden_attack(actor, p)));
                } else {
                    assert(out@ =~= start + kept.push(p).map_values(|p: PlayerReference| Effect::Roleblock { target: p }));
                }
            } else {
                assert(t1.filter(pred) == kept);
            }
        }
        i = i + 1;
    }
    proof {
        assert(ps@.take(i as int) =~= ps@);
    }
}

impl Warden {
    /// The warden also reads the warden chat, whatever the phase.
    pub fn get_current_receive_chat_groups(&self, common: VecSet<ChatGroup>) -> (r: VecSet<ChatGroup>)
        ensures
            r@ == with_group(common@, true, ChatGroup::Warden),
    {
        let mut out = common;
        out.insert(ChatGroup::Warden);
        out
    }

    pub fn players_to_kill(&self, game: &Game, actor_ref: PlayerReference) -> (r: VecSet<PlayerReference>)
        ensures
            r@ == spec_players_to_kill(*game, actor_ref, self.players_in_prison@),
    {
        let ghost pred = |p: PlayerReference| chose_die(*game, actor_ref, p);
        let mut die: Vec<PlayerReference> = Vec::new();
        let mut i: usize = 0;
        while i < self.players_in_prison.len()
            invariant
                i <= self.players_in_prison@.len(),
                pred == (|p: PlayerReference| chose_die(*game, actor_ref, p)),
                die@ == self.players_in_prison@.take(i as int).filter(pred),
            decreases self.players_in_prison@.len() - i,
        {
            let p = self.players_in_prison[i];
            let live = get_boolean_selection(game, ControllerID::WardenLiveOrDie { warden: actor_ref, player: p });
            if live == Some(false) {
                die.push(p);
            }
            proof {
                reveal_with_fuel(Seq::filter, 1);
                let t1 = self.players_in_prison@.take(i as int + 1);
                assert(t1.drop_last() =~= self.players_in_prison@.take(i as int));
                assert(t1.last() == p);
            }
            i = i + 1;
        }
        proof {
            assert(self.players_in_prison@.take(i as int) =~= self.players_in_prison@);
        }
        let die_set = VecSet::from_vec(die);
        if die_set.is_empty() {
            VecSet::from_vec(copy_players(&self.players_in_prison))
        } else {
            die_set
        }
    }

    pub fn on_midnight(&self, game: &Game, actor_ref: PlayerReference, priority: OnMidnightPriority) -> (r: Vec<Effect>)
        ensures
            r@ == warden_night(*game, actor_ref, self.players_in_prison@, priority),
    {
        let mut out: Vec<Effect> = Vec::new();
        match priority {
            OnMidnightPriority::Ward => {
                match get_boolean_selection(game, ControllerID::role(actor_ref, Role::Warden, 1)) {
                    Some(true) => {
                        out.push(Effect::Ward { target: actor_ref });
                    },
                    _ => {},
                }
                out
            },
            OnMidnightPriority::Roleblock => {
                if game.day_number == 1 {
                    return out;
                }
                push_each_but(&self.players_in_prison, actor_ref, false, &mut out);
                out
            },
            OnMidnightPriority::Kill => {
                if game.day_number == 1 {
                    return out;
                }
                let kill = self.players_to_kill(game, actor_ref);
                push_each_but(kill.as_vec(), actor_ref, true, &mut out);
                out
            },
            _ => out,
        }
    }

    /// The prison controller (up to three living players, grayed out once
    /// the ability is gone and on the first day, cleared at nightfall), the
    /// ward controller (cleared at the obituary), and a live-or-die choice
    /// for each prisoner, which only that prisoner may use.
    pub fn controller_parameters_map(&self, game: &Game, actor_ref: PlayerReference) -> (r: Vec<ControllerParameters>)
        requires
            game_ok(*game),
            valid_player(*game, actor_ref),
        ensures
            r@.len() == 2 + self.players_in_prison@.len(),
            r@[0].id == ControllerID::role(actor_ref, Role::Warden, 0),
            r@[0].available matches AvailableAbilitySelection::PlayerList {
                available_players,
                can_choose_duplicates,
                max_players,
            } && available_players@ == filtered(*game, (Some(true), Seq::empty(), None)) && !can_choose_duplicates
                && max_players == Some(MAX_PLAYERS_IN_PRISON),
            r@[0].grayed_out == (data(*game, actor_ref).ability_deactivated_from_death || game.day_number <= 1),
            r@[0].reset_on_phase_start == Some(PhaseType::Night),
            r@[0].allowed_players@ == seq![actor_ref],
            r@[1].id == ControllerID::role(actor_ref, Role::Warden, 1),
            r@[1].available == AvailableAbilitySelection::Boolean,
            r@[1].grayed_out == data(*game, actor_ref).ability_deactivated_from_death,
            r@[1].reset_on_phase_start == Some(PhaseType::Obituary),
            r@[1].allowed_players@ == seq![actor_ref],
            forall|i: int|
                0 <= i < self.players_in_prison@.len() ==> {
                    let c = #[trigger] r@[2 + i];
                    &&& c.id == (ControllerID::WardenLiveOrDie { warden: actor_ref, player: self.players_in_prison@[i] })
                    &&& c.available == AvailableAbilitySelection::Boolean
                    &&& !c.grayed_out
                    &&& c.allowed_players@ == seq![self.players_in_prison@[i]]
                },
    {
        let deactivated = game.players[actor_ref.index as usize].ability_deactivated_from_death;
        let mut out: Vec<ControllerParameters> = Vec::new();
        out.push(
            ControllerParameters {
                id: ControllerID::role(actor_ref, Role::Warden, 0),
                available: AvailableAbilitySelection::PlayerList {
                    available_players: filter_players(game, Some(true), &Vec::new(), None),
                    can_choose_duplicates: false,
                    max_players: Some(MAX_PLAYERS_IN_PRISON),
                },
                grayed_out: deactivated || game.day_number <= 1,
                night_typical: false,
                reset_on_phase_start: Some(PhaseType::Night),
                dont_save: false,
                default_selection: None,
                allowed_players: vec![actor_ref],
            },
        );
        out.push(
            ControllerParameters {
                id: ControllerID::role(actor_ref, Role::Warden, 1),
                available: AvailableAbilitySelection::Boolean,
                grayed_out: deactivated,
                night_typical: false,
                reset_on_phase_start: Some(PhaseType::Obituary),
                dont_save: false,
                default_selection: None,
                allowed_players: vec![actor_ref],
            },
        );
        let mut i: usize = 0;
        while i < self.players_in_prison.len()
            invariant
                i <= self.players_in_prison@.len(),
                out@.len() == 2 + i,
                out@[0].id == ControllerID::role(actor_ref, Role::Warden, 0),
                out@[0].available matches AvailableAbilitySelection::PlayerList {
                    available_players,
                    can_choose_duplicates,
                    max_players,
                } && available_players@ == filtered(*game, (Some(true), Seq::empty(), None)) && !can_choose_duplicates
                    && max_players == Some(MAX_PLAYERS_IN_PRISON),
                out@[0].grayed_out == (deactivated || game.day_number <= 1),
                out@[0].reset_on_phase_start == Some(PhaseType::Night),
                out@[0].allowed_players@ == seq![actor_ref],
                out@[1].id == ControllerID::role(actor_ref, Role::Warden, 1),
                out@[1].available == AvailableAbilitySelection::Boolean,
                out@[1].grayed_out == deactivated,
                out@[1].reset_on_phase_start == Some(PhaseType::Obituary),
                out@[1].allowed_players@ == seq![actor_ref],
                deactivated == data(*game, actor_ref).ability_deactivated_from_death,
                forall|j: int|
                    0 <= j < i ==> {
                        let c = #[trigger] out@[2 + j];
                        &&& c.id == (ControllerID::WardenLiveOrDie { warden: actor_ref, player: self.players_in_prison@[j] })
                        &&& c.available == AvailableAbilitySelection::Boolean
                        &&& !c.grayed_out
                        &&& c.allowed_players@ == seq![self.players_in_prison@[j]]
                    },
            decreases self.players_in_prison@.len() - i,
        {
            let p = self.players_in_prison[i];
            let ghost prev = out@;
            out.push(
                ControllerParameters {
                    id: ControllerID::WardenLiveOrDie { warden: actor_ref, player: p },
                    available: AvailableAbilitySelection::Boolean,
                    grayed_out: false,
                    night_typical: false,
                    reset_on_phase_start: None,
                    dont_save: false,
                    default_selection: None,
                    allowed_players: vec![p],
                },
            );
            proof {
                assert forall|j: int| 0 <= j < i + 1 implies {
                    let c = #[trigger] out@[2 + j];
                    &&& c.id == (ControllerID::WardenLiveOrDie { warden: actor_ref, player: self.players_in_prison@[j] })
                    &&& c.available == AvailableAbilitySelection::Boolean
                    &&& !c.grayed_out
                    &&& c.allowed_players@ == seq![self.players_in_prison@[j]]
                } by {
                    if j < i {
                        assert(out@[2 + j] == prev[2 + j]);
                    }
                }
            }
            i = i + 1;
        }
        out
    }

    /// At nightfall the picked players go to prison, unless the warden's
    /// ability is gone or one of them is dead: the warden's chat and each
    /// prisoner are told who is imprisoned. At the obituary the prison empties.
    pub fn on_phase_start(self, game: &Game, actor_ref: PlayerReference, phase: PhaseType) -> (r: (Warden, Vec<Effect>))
        requires
            valid_player(*game, actor_ref),
        ensures
            phase == PhaseType::Night ==> match saved_player_list(*game, ControllerID::role(actor_ref, Role::Warden, 0)) {
                Some(list) => if data(*game, actor_ref).ability_deactivated_from_death || exists|i: int|
                    0 <= i < list.len() && !alive(*game, #[trigger] list[i]) {
                    r.0.players_in_prison@ == self.players_in_prison@ && r.1@.len() == 0
                } else {
                    &&& r.0.players_in_prison@ == list
                    &&& r.1@.len() == list.len() + 1
                    &&& is_prison_announcement(r.1@[0], list)
                    &&& forall|i: int| 0 <= i < list.len() ==> is_prison_notice(#[trigger] r.1@[i + 1], list[i], list)
                },
                None => r.0.players_in_prison@ == self.players_in_prison@ && r.1@.len() == 0,
            },
            phase == PhaseType::Obituary ==> r.0.players_in_prison@.len() == 0 && r.1@.len() == 0,
            phase != PhaseType::Night && phase != PhaseType::Obituary ==> r.0.players_in_prison@
                == self.players_in_prison@ && r.1@.len() == 0,
    {
        let mut out: Vec<Effect> = Vec::new();
        match phase {
            PhaseType::Night => {
                let list = match get_player_list_selection(game, ControllerID::role(actor_ref, Role::Warden, 0)) {
                    Some(list) => list,
                    None => return (self, out),
                };
                if game.players[actor_ref.index as usize].ability_deactivated_from_death {
                    return (self, out);
                }
                let mut i: usize = 0;
                while i < list.len()
                    invariant
                        i <= list@.len(),
                        phase == PhaseType::Night,
                        out@.len() == 0,
                        saved_player_list(*game, ControllerID::role(actor_ref, Role::Warden, 0)) == Some(list@),
                        !data(*game, actor_ref).ability_deactivated_from_death,
                        forall|j: int| 0 <= j < i ==> alive(*game, #[trigger] list@[j]),
                    decreases list@.len() - i,
                {
                    if !crate::game::player_alive(game, list[i]) {
                        assert(!alive(*game, list@[i as int]));
                        return (self, out);
                    }
                    i = i + 1;
                }
                out.push(
                    Effect::GroupMessage {
                        group: ChatGroup::Warden,
                        message: ChatMessageVariant::WardenPlayersImprisoned { players: copy_players(list) },
                    },
                );
                let mut k: usize = 0;
                while k < list.len()
                    invariant
                        k <= list@.len(),
                        out@.len() == k + 1,
                        is_prison_announcement(out@[0], list@),
                        forall|j: int| 0 <= j < k ==> is_prison_notice(#[trigger] out@[j + 1], list@[j], list@),
                    decreases list@.len() - k,
                {
                    out.push(
                        Effect::InsiderOrPrivateMessage {
                            to: list[k],
                            message: ChatMessageVariant::WardenPlayersImprisoned { players: copy_players(list) },
                        },
                    );
                    k = k + 1;
                }
                (Warden { players_in_prison: copy_players(list) }, out)
            },
            PhaseType::Obituary => (Warden { players_in_prison: Vec::new() }, out),
            _ => (self, out),
        }
    }
}

} // verus!

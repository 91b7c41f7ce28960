//! Chat groups and the messages roles send.

use vstd::prelude::*;
use crate::vec_set::SetItem;
use super::player::{PlayerIndex, PlayerReference};
use super::role::Role;
use super::role::spy::SpyBug;
use super::role::santa_claus::SantaListKind;
use super::role::trapper::TrapState;

verus! {

#[derive(Clone, Copy, PartialEq, Eq, Structural, Debug, Hash)]
pub enum ChatGroup {
    All,
    Dead,
    Mafia,
    Cult,
    Jail,
    Kidnapped,
    Interview,
    Puppeteer,
    Warden,
}

impl SetItem for ChatGroup {
    fn same(&self, other: &Self) -> (r: bool) {
        *self == *other
    }
}

#[derive(PartialEq, Eq, Debug)]
pub enum ChatMessageVariant {
    PhilosopherResult { enemies: bool },
    PsychicEvil { first: PlayerReference, second: PlayerReference },
    PsychicGood { player: PlayerReference },
    PsychicFailed,
    SnoopResult { townie: bool },
    TallyClerkResult { evil_count: u8 },
    SupervisorResult { visited: u8, visitors: u8 },
    YourConvertFailed,
    RevolutionaryRefreshFailed,
    RevolutionaryWon,
    WerewolfTrackingResult { tracked_player: PlayerIndex, players: Vec<PlayerIndex> },
    TrackerResult { players: Vec<PlayerIndex> },
    ScarecrowResult { players: Vec<PlayerIndex> },
    SpyMafiaVisit { players: Vec<PlayerIndex> },
    SpyBug { bug: SpyBug },
    Silenced,
    RoleBlocked { immune: bool },
    Wardblocked,
    YouWereGuarded,
    YouSurvivedAttack,
    Transported,
    YouWerePossessed { immune: bool },
    TargetHasRole { role: Role },
    AddedToNiceList,
    AddedToNaughtyList,
    SantaAddedPlayerToNaughtyList { player: PlayerReference },
    NextSantaAbility { ability: SantaListKind },
    SeekerCaught { hider: PlayerIndex, players_left: i8, role_state_win_con: bool },
    CaughtBySeeker,
    SomeoneSurvivedYourAttack,
    TrapperYouAttackedVisitor,
    TargetWasAttacked,
    YouWereProtected,
    TrapperVisitorsRole { role: Role },
    TrapState { state: TrapState },
    WildcardConvertFailed { role: Role },
    MayorRevealed { player_index: PlayerIndex },
    PoliticianCountdownStarted,
    GodfatherBackup { backup: Option<PlayerIndex> },
    PlayerIsBeingInterviewed { player_index: PlayerIndex },
    ReporterReport { report: String },
    WardenPlayersImprisoned { players: Vec<PlayerReference> },
    Whisper { from_player_index: PlayerIndex, to_player_index: PlayerIndex, text: String },
    WerewolfTracked,
    TargetJailed,
    SheriffResult { suspicious: bool },
    PlayerRoleAndAlibi { player: PlayerReference, role: Role, will: String },
    /// The messages of `recipient` follow, up to `ReceivedMessagesEnd`.
    ReceivedMessagesStart { recipient: PlayerReference },
    /// A message someone else received.
    TargetsMessage { message: Box<ChatMessageVariant> },
    ReceivedMessagesEnd,
}

/// Two messages say the same: equal, with lists compared by their items.
pub open spec fn same_message(a: ChatMessageVariant, b: ChatMessageVariant) -> bool
    decreases a,
{
    match a {
        ChatMessageVariant::WerewolfTrackingResult { tracked_player, players } => match b {
            ChatMessageVariant::WerewolfTrackingResult { tracked_player: tracked_player_b, players: players_b } => tracked_player == tracked_player_b && players@ == players_b@,
            _ => false,
        },
        ChatMessageVariant::TrackerResult { players } => match b {
            ChatMessageVariant::TrackerResult { players: players_b } => players@ == players_b@,
            _ => false,
        },
        ChatMessageVariant::ScarecrowResult { players } => match b {
            ChatMessageVariant::ScarecrowResult { players: players_b } => players@ == players_b@,
            _ => false,
        },
        ChatMessageVariant::SpyMafiaVisit { players } => match b {
            ChatMessageVariant::SpyMafiaVisit { players: players_b } => players@ == players_b@,
            _ => false,
        },
        ChatMessageVariant::WardenPlayersImprisoned { players } => match b {
            ChatMessageVariant::WardenPlayersImprisoned { players: players_b } => players@ == players_b@,
            _ => false,
        },
        ChatMessageVariant::TargetsMessage { message } => match b {
            ChatMessageVariant::TargetsMessage { message: message_b } => same_message(*message, *message_b),
            _ => false,
        },
        _ => a == b,
    }
}

/// Two runs of messages say the same, message by message.
pub open spec fn same_messages(a: Seq<ChatMessageVariant>, b: Seq<ChatMessageVariant>) -> bool {
    a.len() == b.len() && forall|i: int| 0 <= i < a.len() ==> same_message(#[trigger] a[i], b[i])
}

/// Runs of messages that say the same stay so when each gets one more
/// message saying the same.
pub proof fn lemma_same_messages_push(a: Seq<ChatMessageVariant>, b: Seq<ChatMessageVariant>, x: ChatMessageVariant, y: ChatMessageVariant)
    requires
        same_messages(a, b),
        same_message(x, y),
    ensures
        same_messages(a.push(x), b.push(y)),
{
    assert forall|i: int| 0 <= i < a.push(x).len() implies same_message(#[trigger] a.push(x)[i], b.push(y)[i]) by {
        if i < a.len() {
            assert(a.push(x)[i] == a[i]);
            assert(b.push(y)[i] == b[i]);
        }
    }
}

/// Whether `m` tells its reader they were guarded or survived an attack.
pub open spec fn is_guard_message(m: ChatMessageVariant) -> bool {
    m is YouWereGuarded || m is YouSurvivedAttack
}

/// `messages` without those telling the reader they were guarded or survived an attack.
pub open spec fn without_guard_messages(messages: Seq<ChatMessageVariant>) -> Seq<ChatMessageVariant> {
    messages.filter(|m: ChatMessageVariant| !is_guard_message(m))
}

/// A copy of `messages` without those telling the reader they were guarded
/// or survived an attack, the rest in order.
pub fn remove_guard_messages(messages: &Vec<ChatMessageVariant>) -> (r: Vec<ChatMessageVariant>)
    ensures
        same_messages(r@, without_guard_messages(messages@)),
{
    let ghost pred = |m: ChatMessageVariant| !is_guard_message(m);
    let mut out: Vec<ChatMessageVariant> = Vec::new();
    let mut i: usize = 0;
    while i < messages.len()
        invariant
            i <= messages@.len(),
            pred == (|m: ChatMessageVariant| !is_guard_message(m)),
            same_messages(out@, messages@.take(i as int).filter(pred)),
        decreases messages@.len() - i,
    {
        let m = &messages[i];
        let ghost before = messages@.take(i as int).filter(pred);
        proof {
            reveal_with_fuel(Seq::filter, 1);
            assert(messages@.take(i as int + 1).drop_last() =~= messages@.take(i as int));
            assert(messages@.take(i as int + 1).last() == *m);
        }
        let guard = match m {
            ChatMessageVariant::YouWereGuarded => true,
            ChatMessageVariant::YouSurvivedAttack => true,
            _ => false,
        };
        if !guard {
            let copy = m.duplicate();
            proof {
                lemma_same_messages_push(out@, before, copy, *m);
            }
            out.push(copy);
        }
        i = i + 1;
    }
    proof {
        assert(messages@.take(i as int) =~= messages@);
    }
    out
}

fn copy_indices(v: &Vec<PlayerIndex>) -> (r: Vec<PlayerIndex>)
    ensures
        r@ == v@,
{
    let mut out: Vec<PlayerIndex> = Vec::new();
    let mut i: usize = 0;
    while i < v.len()
        invariant
            i <= v@.len(),
            out@ == v@.take(i as int),
        decreases v@.len() - i,
    {
        out.push(v[i]);
        i = i + 1;
        assert(out@ =~= v@.take(i as int));
    }
    assert(v@.take(i as int) =~= v@);
    out
}

impl ChatMessageVariant {
    /// A copy of the message that says the same.
    pub fn duplicate(&self) -> (r: ChatMessageVariant)
        ensures
            same_message(r, *self),
        decreases *self,
    {
        match self {
            ChatMessageVariant::PhilosopherResult { enemies } => ChatMessageVariant::PhilosopherResult { enemies: *enemies },
            ChatMessageVariant::PsychicEvil { first, second } => ChatMessageVariant::PsychicEvil { first: *first, second: *second },
            ChatMessageVariant::PsychicGood { player } => ChatMessageVariant::PsychicGood { player: *player },
            ChatMessageVariant::PsychicFailed => ChatMessageVariant::PsychicFailed,
            ChatMessageVariant::SnoopResult { townie } => ChatMessageVariant::SnoopResult { townie: *townie },
            ChatMessageVariant::TallyClerkResult { evil_count } => ChatMessageVariant::TallyClerkResult { evil_count: *evil_count },
            ChatMessageVariant::SupervisorResult { visited, visitors } => ChatMessageVariant::SupervisorResult { visited: *visited, visitors: *visitors },
            ChatMessageVariant::YourConvertFailed => ChatMessageVariant::YourConvertFailed,
            ChatMessageVariant::RevolutionaryRefreshFailed => ChatMessageVariant::RevolutionaryRefreshFailed,
            ChatMessageVariant::RevolutionaryWon => ChatMessageVariant::RevolutionaryWon,
            ChatMessageVariant::WerewolfTrackingResult { tracked_player, players } => ChatMessageVariant::WerewolfTrackingResult { tracked_player: *tracked_player, players: copy_indices(players) },
            ChatMessageVariant::TrackerResult { players } => ChatMessageVariant::TrackerResult { players: copy_indices(players) },
            ChatMessageVariant::ScarecrowResult { players } => ChatMessageVariant::ScarecrowResult { players: copy_indices(players) },
            ChatMessageVariant::SpyMafiaVisit { players } => ChatMessageVariant::SpyMafiaVisit { players: copy_indices(players) },
            ChatMessageVariant::SpyBug { bug } => ChatMessageVariant::SpyBug { bug: *bug },
            ChatMessageVariant::Silenced => ChatMessageVariant::Silenced,
            ChatMessageVariant::RoleBlocked { immune } => ChatMessageVariant::RoleBlocked { immune: *immune },
            ChatMessageVariant::Wardblocked => ChatMessageVariant::Wardblocked,
            ChatMessageVariant::YouWereGuarded => ChatMessageVariant::YouWereGuarded,
            ChatMessageVariant::YouSurvivedAttack => ChatMessageVariant::YouSurvivedAttack,
            ChatMessageVariant::Transported => ChatMessageVariant::Transported,
            ChatMessageVariant::YouWerePossessed { immune } => ChatMessageVariant::YouWerePossessed { immune: *immune },
            ChatMessageVariant::TargetHasRole { role } => ChatMessageVariant::TargetHasRole { role: *role },
            ChatMessageVariant::AddedToNiceList => ChatMessageVariant::AddedToNiceList,
            ChatMessageVariant::AddedToNaughtyList => ChatMessageVariant::AddedToNaughtyList,
            ChatMessageVariant::SantaAddedPlayerToNaughtyList { player } => ChatMessageVariant::SantaAddedPlayerToNaughtyList { player: *player },
            ChatMessageVariant::NextSantaAbility { ability } => ChatMessageVariant::NextSantaAbility { ability: *ability },
            ChatMessageVariant::SeekerCaught { hider, players_left, role_state_win_con } => ChatMessageVariant::SeekerCaught { hider: *hider, players_left: *players_left, role_state_win_con: *role_state_win_con },
            ChatMessageVariant::CaughtBySeeker => ChatMessageVariant::CaughtBySeeker,
            ChatMessageVariant::SomeoneSurvivedYourAttack => ChatMessageVariant::SomeoneSurvivedYourAttack,
            ChatMessageVariant::TrapperYouAttackedVisitor => ChatMessageVariant::TrapperYouAttackedVisitor,
            ChatMessageVariant::TargetWasAttacked => ChatMessageVariant::TargetWasAttacked,
            ChatMessageVariant::YouWereProtected => ChatMessageVariant::YouWereProtected,
            ChatMessageVariant::TrapperVisitorsRole { role } => ChatMessageVariant::TrapperVisitorsRole { role: *role },
            ChatMessageVariant::TrapState { state } => ChatMessageVariant::TrapState { state: *state },
            ChatMessageVariant::WildcardConvertFailed { role } => ChatMessageVariant::WildcardConvertFailed { role: *role },
            ChatMessageVariant::MayorRevealed { player_index } => ChatMessageVariant::MayorRevealed { player_index: *player_index },
            ChatMessageVariant::PoliticianCountdownStarted => ChatMessageVariant::PoliticianCountdownStarted,
            ChatMessageVariant::GodfatherBackup { backup } => ChatMessageVariant::GodfatherBackup { backup: *backup },
            ChatMessageVariant::PlayerIsBeingInterviewed { player_index } => ChatMessageVariant::PlayerIsBeingInterviewed { player_index: *player_index },
            ChatMessageVariant::ReporterReport { report } => ChatMessageVariant::ReporterReport { report: report.clone() },
            ChatMessageVariant::WardenPlayersImprisoned { players } => ChatMessageVariant::WardenPlayersImprisoned { players: crate::game::role::common_role::copy_players(players) },
            ChatMessageVariant::Whisper { from_player_index, to_player_index, text } => ChatMessageVariant::Whisper { from_player_index: *from_player_index, to_player_index: *to_player_index, text: text.clone() },
            ChatMessageVariant::WerewolfTracked => ChatMessageVariant::WerewolfTracked,
            ChatMessageVariant::TargetJailed => ChatMessageVariant::TargetJailed,
            ChatMessageVariant::SheriffResult { suspicious } => ChatMessageVariant::SheriffResult { suspicious: *suspicious },
            ChatMessageVariant::PlayerRoleAndAlibi { player, role, will } => ChatMessageVariant::PlayerRoleAndAlibi { player: *player, role: *role, will: will.clone() },
            ChatMessageVariant::ReceivedMessagesStart { recipient } => ChatMessageVariant::ReceivedMessagesStart { recipient: *recipient },
            ChatMessageVariant::TargetsMessage { message } => ChatMessageVariant::TargetsMessage { message: Box::new(message.duplicate()) },
            ChatMessageVariant::ReceivedMessagesEnd => ChatMessageVariant::ReceivedMessagesEnd,
        }
    }
}

} // verus!

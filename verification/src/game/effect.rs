//! What a role's decision asks the game to do.
//!
//! Roles here decide; the game applies. Each decision of a role returns the
//! effects it has, in the order the game applies them.

use vstd::prelude::*;
use super::player::PlayerReference;
use super::chat::{ChatGroup, ChatMessageVariant, same_message, same_messages};
use super::attack_power::{AttackPower, DefensePower};
use super::role::Role;
use super::game_conclusion::GameConclusion;
use super::insider_group::InsiderGroupID;
use super::role_list::RoleSet;
use super::tag::Tag;

verus! {

/// A set of players that a role marks, named by what the mark means.
#[derive(Clone, Copy, PartialEq, Eq, Structural, Debug)]
pub enum TagSetID {
    WerewolfTracked(PlayerReference),
    RevolutionaryTarget(PlayerReference),
    MorticianTag(PlayerReference),
    Follower(PlayerReference),
}

/// Who a death is put down to on the grave.
#[derive(Clone, Copy, PartialEq, Eq, Structural, Debug)]
pub enum GraveKiller {
    Role(Role),
    RoleSet(RoleSet),
    Suicide,
}

/// One thing a role's decision asks the game to do.
#[derive(Debug, PartialEq, Eq)]
pub enum Effect {
    /// Adds a message to the player's night report.
    NightMessage { to: PlayerReference, message: ChatMessageVariant },
    /// Sends the player a message in their private chat at once.
    PrivateMessage { to: PlayerReference, message: ChatMessageVariant },
    /// `attacker` attacks `target` tonight.
    Attack {
        attacker: PlayerReference,
        target: PlayerReference,
        killer: GraveKiller,
        power: AttackPower,
        leave_death_note: bool,
    },
    /// The player dies at once.
    Die { player: PlayerReference, killer: GraveKiller },
    /// Raises the player's defense for tonight to at least `power`.
    Defend { target: PlayerReference, power: DefensePower },
    /// Blocks the player's ability tonight.
    Roleblock { target: PlayerReference },
    /// Wards the player tonight: visits to them fail.
    Ward { target: PlayerReference },
    /// Makes the visit of `visitor` to `target` an attack.
    MarkAttack { visitor: PlayerReference, target: PlayerReference },
    /// Converts the player to `role` at the end of the night.
    ConvertTonight { target: PlayerReference, role: Role },
    /// Switches the player to `role` at once.
    SwitchRole { target: PlayerReference, role: Role },
    /// Marks the player in `set`.
    AddTag { set: TagSetID, player: PlayerReference },
    /// Clears the player's mark in `set`.
    RemoveTag { set: TagSetID, player: PlayerReference },
    /// Silences the player tomorrow.
    Silence { target: PlayerReference },
    /// Shows `role` on the player's grave.
    GraveRole { target: PlayerReference, role: Role },
    /// Redirects every visit to `from` so it lands on `to`.
    Redirect { from: PlayerReference, to: PlayerReference },
    /// The player leaves the town: they die, with a grave saying they left.
    LeaveTown { player: PlayerReference },
    /// Shows `viewer` the tag on `player`.
    PlayerTag { viewer: PlayerReference, player: PlayerReference, tag: Tag },
    /// Counts the nominations; with `start_trial` a trial starts at once if
    /// someone has enough.
    CountNominations { start_trial: bool },
    /// Adds `conclusion` to the conclusions the player wins with.
    AddWinConclusion { player: PlayerReference, conclusion: GameConclusion },
    /// Posts a message in a chat group.
    GroupMessage { group: ChatGroup, message: ChatMessageVariant },
    /// Sends the player a message in an insider chat they can read, or
    /// privately when there is none.
    InsiderOrPrivateMessage { to: PlayerReference, message: ChatMessageVariant },
    /// Turns the player into a yer at the end of the night, with these star
    /// passes left and their old role to pose as.
    ConvertToYer { target: PlayerReference, star_passes_remaining: u8, old_role: Role },
    /// Every visit to `from` now lands on `to`, except those of `warper`
    /// and of other warpers and transporters.
    Warp { warper: PlayerReference, from: PlayerReference, to: PlayerReference },
    /// The cult used its kill tonight.
    CultKillUsed,
    /// Swaps two players: every visit to one lands on the other.
    Transport { first: PlayerReference, second: PlayerReference },
    /// Poisons the player: `attacker` attacks them at the end of the next night.
    Poison { target: PlayerReference, attacker: PlayerReference, killer: GraveKiller, power: AttackPower },
    /// Stops showing `viewer` the tag on `player`.
    RemovePlayerTag { viewer: PlayerReference, player: PlayerReference, tag: Tag },
    /// Clears the tag from every player `viewer` sees it on.
    RemoveTagEverywhere { viewer: PlayerReference, tag: Tag },
    /// Shows `to` the role of `player`.
    RevealRole { to: PlayerReference, player: PlayerReference },
    /// Hides the role of `player` from `to` again.
    ConcealRole { to: PlayerReference, player: PlayerReference },
    /// Makes the player the retrainer, with no backup and these retrains left.
    BecomeRetrainer { target: PlayerReference, retrains_remaining: u8 },
    /// Gives the player a pitchfork to vote with.
    AddPitchfork { player: PlayerReference },
    /// Takes the player's pitchfork away.
    RemovePitchfork { player: PlayerReference },
    /// Recruits the player into the mafia.
    Recruit { target: PlayerReference },
    /// Takes the player out of the insider group.
    LeaveInsiderGroup { player: PlayerReference, group: InsiderGroupID },
    /// Hides what the grave of the player shows.
    ObscureGrave { player: PlayerReference },
    /// Strings the player as a marionette of the puppeteers.
    StringMarionette { target: PlayerReference },
    /// Replaces the player's night report with `messages`.
    SetNightMessages { player: PlayerReference, messages: Vec<ChatMessageVariant> },
    /// `possessor` uses the ability of `target` at this step of the night.
    PossessAction { possessor: PlayerReference, target: PlayerReference },
    /// Confuses the player for this night and `duration` more.
    Confuse { target: PlayerReference, duration: u8 },
    /// Gives the player a drunk aura for this night and `duration` more.
    DrunkAura { target: PlayerReference, duration: u8 },
    /// Makes the player a loyalist who wins exactly with `conclusion`.
    LoyalistOf { player: PlayerReference, conclusion: GameConclusion },
    /// Adds the player to the insider group, revealed to its members.
    JoinInsiderGroup { player: PlayerReference, group: InsiderGroupID },
}


/// Two effects do the same: equal, with the messages they send compared by
/// `same_message`.
pub open spec fn same_effect(a: Effect, b: Effect) -> bool {
    match a {
        Effect::NightMessage { to, message } => match b {
            Effect::NightMessage { to: to_b, message: message_b } => to == to_b && same_message(message, message_b),
            _ => false,
        },
        Effect::SetNightMessages { player, messages } => match b {
            Effect::SetNightMessages { player: player_b, messages: messages_b } => player == player_b
                && same_messages(messages@, messages_b@),
            _ => false,
        },
        _ => a == b,
    }
}

/// Two runs of effects do the same, effect by effect.
pub open spec fn same_effects(a: Seq<Effect>, b: Seq<Effect>) -> bool {
    a.len() == b.len() && forall|i: int| 0 <= i < a.len() ==> same_effect(#[trigger] a[i], b[i])
}

/// Runs that do the same stay so when each gets one more effect doing the same.
pub proof fn lemma_same_effects_push(a: Seq<Effect>, b: Seq<Effect>, x: Effect, y: Effect)
    requires
        same_effects(a, b),
        same_effect(x, y),
    ensures
        same_effects(a.push(x), b.push(y)),
{
    assert forall|i: int| 0 <= i < a.push(x).len() implies same_effect(#[trigger] a.push(x)[i], b.push(y)[i]) by {
        if i < a.len() {
            assert(a.push(x)[i] == a[i]);
            assert(b.push(y)[i] == b[i]);
        }
    }
}

} // verus!

//! References to the players of a game and the facts the engine keeps on them.

use vstd::prelude::*;
use crate::vec_set::SetItem;
use super::role::Role;
use super::visit::Visit;
use super::chat::ChatMessageVariant;
use super::attack_power::DefensePower;
use super::game_conclusion::GameConclusion;

verus! {

/// The index of a player.
pub type PlayerIndex = u8;

/// A player of the game, named by index.
#[derive(Clone, Copy, PartialEq, Eq, Structural, Debug, Hash)]
pub struct PlayerReference {
    pub index: PlayerIndex,
}

impl SetItem for PlayerReference {
    fn same(&self, other: &Self) -> (r: bool) {
        self.index == other.index
    }
}

impl PlayerReference {
    pub fn new(index: PlayerIndex) -> (r: PlayerReference)
        ensures
            r.index == index,
    {
        PlayerReference { index }
    }

    pub fn index(&self) -> (r: PlayerIndex)
        ensures
            r == self.index,
    {
        self.index
    }
}

/// What the engine knows of one player at the moment a role decides.
///
/// The verdicts that rest on parts of the engine outside this library
/// (win-condition loyalties, auras, confusion, detention) are carried here as
/// the engine computed them.
#[derive(Debug)]
pub struct PlayerData {
    pub alive: bool,
    pub role: Role,
    /// The player's win condition makes them a loyalist of the town.
    pub loyalist_for_town: bool,
    /// The player's win condition makes them a loyalist of the politician.
    pub loyalist_for_politician: bool,
    /// The player's win condition lists the nice list among its conclusions.
    pub on_nice_list: bool,
    /// The player's win condition lists the naughty list among its conclusions.
    pub on_naughty_list: bool,
    /// The player's win condition is a list of game conclusions (and not a role's own).
    pub win_condition_is_conclusion_list: bool,
    /// The conclusions the player's win condition lists (none for a role's own).
    pub win_conclusions: Vec<GameConclusion>,
    /// How a confused investigator reads the player: as suspicious or not.
    pub suspicious_to_confused: bool,
    pub keeps_game_running: bool,
    pub ability_deactivated_from_death: bool,
    pub detained: bool,
    pub confused: bool,
    pub has_innocent_aura: bool,
    pub has_suspicious_aura: bool,
    pub night_blocked: bool,
    pub night_silenced: bool,
    /// The vampires track the player.
    pub vampire_tracked: bool,
    /// The puppeteer has strung the player as a marionette.
    pub is_marionette: bool,
    pub night_died: bool,
    /// Someone attacked the player tonight.
    pub night_attacked: bool,
    /// The players the player has targeted so far this night.
    pub chosen_targets: Vec<PlayerReference>,
    /// The player's defense tonight.
    pub defense: DefensePower,
    pub in_mafia: bool,
    pub guiltied_today: bool,
    pub won_game: bool,
    /// The role shown on the player's grave, when they have one showing it.
    pub grave_role: Option<Role>,
    /// The player's last will.
    pub will: String,
    /// The visits this player's role made tonight.
    pub night_visits: Vec<Visit>,
    pub night_messages: Vec<ChatMessageVariant>,
}

} // verus!

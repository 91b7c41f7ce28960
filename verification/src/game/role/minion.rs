//! The minion: makes a player use their ability on another, and leaves the
//! town once everyone left can win with it.

use vstd::prelude::*;
use crate::game::{Game, data, valid_player, game_ok, alive};
use crate::game::player::PlayerReference;
use crate::game::effect::Effect;
use crate::game::phase::PhaseType;
use crate::game::visit::Visit;
use super::{Role, GetClientRoleState};
use super::scarecrow::all_friends;
use super::warper::leave_when_all_friends;

verus! {

/// Two players picked together: the one to use, and the one to use them on.
#[derive(Clone, Copy, Debug, PartialEq, Eq, Structural)]
pub struct PlayerPair {
    pub first: PlayerReference,
    pub second: PlayerReference,
}

#[derive(Clone, Copy, Debug, PartialEq, Eq, Structural)]
pub struct Minion {
    pub currently_used_player: Option<PlayerReference>,
    /// The player to use, and the player to use them on.
    pub night_selection: Option<PlayerPair>,
}

#[derive(Clone, Copy, Debug)]
pub struct ClientRoleState {
    pub night_selection: Option<PlayerPair>,
}

impl Default for Minion {
    fn default() -> (r: Self)
        ensures
            r.currently_used_player is None,
            r.night_selection is None,
    {
        Minion { currently_used_player: None, night_selection: None }
    }
}

impl Minion {
    /// The game works a player's ability for the minion; when it did, that
    /// player is the one in use.
    pub fn do_night_action(&self, used_player: Option<PlayerReference>) -> (r: Minion)
        ensures
            used_player is Some ==> r == (Minion { currently_used_player: used_player, night_selection: self.night_selection }),
            used_player is None ==> r == *self,
    {
        match used_player {
            Some(p) => Minion { currently_used_player: Some(p), night_selection: self.night_selection },
            None => *self,
        }
    }

    /// At night the minion's pick is kept when valid and not starting with
    /// itself; otherwise the pick is cleared.
    pub fn on_role_action(&self, game: &Game, actor_ref: PlayerReference, choice: Option<PlayerPair>, choice_valid: bool) -> (r: Minion)
        ensures
            game.phase != PhaseType::Night ==> r == *self,
            game.phase == PhaseType::Night ==> r.currently_used_player == self.currently_used_player
                && r.night_selection == if choice_valid && (choice matches Some(pair) ==> pair.first != actor_ref) {
                choice
            } else {
                None
            },
    {
        if game.phase != PhaseType::Night {
            return *self;
        }
        let ok = choice_valid && match choice {
            Some(pair) => pair.first != actor_ref,
            None => true,
        };
        Minion { currently_used_player: self.currently_used_player, night_selection: if ok { choice } else { None } }
    }

    /// The pick visits both players, neither visit an attack.
    pub fn create_visits(&self, actor_ref: PlayerReference) -> (r: Vec<Visit>)
        ensures
            r@ == match self.night_selection {
                Some(pair) => seq![
                    Visit { visitor: actor_ref, target: pair.first, attack: false, role: Role::Minion, id: 0 },
                    Visit { visitor: actor_ref, target: pair.second, attack: false, role: Role::Minion, id: 0 },
                ],
                None => Seq::empty(),
            },
    {
        match self.night_selection {
            Some(pair) => vec![
                Visit { visitor: actor_ref, target: pair.first, attack: false, role: Role::Minion, id: 0 },
                Visit { visitor: actor_ref, target: pair.second, attack: false, role: Role::Minion, id: 0 },
            ],
            None => Vec::new(),
        }
    }

    /// A living minion leaves the town once everyone left wins with it; at
    /// the obituary its pick and the player in use are cleared.
    pub fn on_phase_start(&self, game: &Game, actor_ref: PlayerReference, phase: PhaseType) -> (r: (Minion, Vec<Effect>))
        requires
            game_ok(*game),
            valid_player(*game, actor_ref),
        ensures
            r.1@ == if alive(*game, actor_ref) && all_friends(*game, actor_ref) {
                seq![Effect::LeaveTown { player: actor_ref }]
            } else {
                Seq::empty()
            },
            r.0 == if phase == PhaseType::Obituary {
                Minion { currently_used_player: None, night_selection: None }
            } else {
                *self
            },
    {
        let out = leave_when_all_friends(game, actor_ref);
        if phase == PhaseType::Obituary {
            (Minion { currently_used_player: None, night_selection: None }, out)
        } else {
            (*self, out)
        }
    }
}

impl GetClientRoleState<ClientRoleState> for Minion {
    fn get_client_role_state(self, game: &Game, actor_ref: PlayerReference) -> (r: ClientRoleState)
        ensures
            r.night_selection == self.night_selection,
    {
        ClientRoleState { night_selection: self.night_selection }
    }
}

} // verus!

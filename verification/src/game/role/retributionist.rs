//! The retributionist: works the abilities of dead townsfolk, each at most
//! twice.

use vstd::prelude::*;
use crate::game::{Game, data, valid_player, game_ok, filtered, filter_players};
use crate::game::player::PlayerReference;
use crate::game::phase::PhaseType;
use crate::game::role_list::{RoleSet, role_set_roles};
use crate::game::ability_input::{ControllerID, ControllerParameters, AvailableAbilitySelection};
use super::{Role, GetClientRoleState};
use super::necromancer::{usable_bodies, usable_bodies_of};

verus! {

#[derive(Debug)]
pub struct Retributionist {
    pub used_bodies: Vec<PlayerReference>,
    pub currently_used_player: Option<PlayerReference>,
}

#[derive(Clone, Copy, Debug)]
pub struct ClientRoleState;

impl Default for Retributionist {
    fn default() -> (r: Self)
        ensures
            r.used_bodies@.len() == 0,
            r.currently_used_player is None,
    {
        Retributionist { used_bodies: Vec::new(), currently_used_player: None }
    }
}

/// Whether the grave of `p` shows a town role.
pub open spec fn town_grave(game: Game, p: PlayerReference) -> bool {
    match data(game, p).grave_role {
        Some(role) => role_set_roles(RoleSet::Town).contains(role),
        None => false,
    }
}

pub open spec fn retributionist_bodies(game: Game, actor: PlayerReference, used: Seq<PlayerReference>) -> Seq<PlayerReference> {
    usable_bodies(game, actor, used).filter(|p: PlayerReference| town_grave(game, p))
}

impl Retributionist {
    /// The game works a body's ability for the retributionist; when it did,
    /// the body is counted as used and is the one in use.
    pub fn on_midnight(self, used_body: Option<PlayerReference>) -> (r: Retributionist)
        ensures
            used_body matches Some(b) ==> r.used_bodies@ == self.used_bodies@.push(b) && r.currently_used_player == Some(b),
            used_body is None ==> r.used_bodies@ == self.used_bodies@ && r.currently_used_player == self.currently_used_player,
    {
        match used_body {
            Some(b) => {
                let mut used = self.used_bodies;
                used.push(b);
                Retributionist { used_bodies: used, currently_used_player: Some(b) }
            },
            None => self,
        }
    }

    /// A usable body whose grave shows a town role, and a living player to
    /// use it on, or none, repeats allowed, at night.
    pub fn controller_parameters_map(&self, game: &Game, actor_ref: PlayerReference) -> (r: ControllerParameters)
        requires
            game_ok(*game),
        ensures
            r.id == ControllerID::role(actor_ref, Role::Retributionist, 0),
            r.available matches AvailableAbilitySelection::TwoPlayerOption {
                available_first_players,
                available_second_players,
                can_choose_duplicates,
                can_choose_none,
            } && available_first_players@ == retributionist_bodies(*game, actor_ref, self.used_bodies@)
                && available_second_players@ == filtered(*game, (Some(true), Seq::empty(), None)) && can_choose_duplicates
                && can_choose_none,
            r.night_typical,
            !r.grayed_out,
    {
        let bodies = usable_bodies_of(game, actor_ref, &self.used_bodies);
        let ghost pred = |p: PlayerReference| town_grave(*game, p);
        let mut first: Vec<PlayerReference> = Vec::new();
        let mut i: usize = 0;
        while i < bodies.len()
            invariant
                i <= bodies@.len(),
                forall|j: int| 0 <= j < bodies@.len() ==> valid_player(*game, #[trigger] bodies@[j]),
                pred == (|p: PlayerReference| town_grave(*game, p)),
                first@ == bodies@.take(i as int).filter(pred),
            decreases bodies@.len() - i,
        {
            let p = bodies[i];
            let keep = match game.players[p.index as usize].grave_role {
                Some(role) => RoleSet::Town.get_roles().contains(&role),
                None => false,
            };
            if keep {
                first.push(p);
            }
            proof {
                reveal_with_fuel(Seq::filter, 1);
                let t1 = bodies@.take(i as int + 1);
                assert(t1.drop_last() =~= bodies@.take(i as int));
                assert(t1.last() == p);
            }
            i = i + 1;
        }
        proof {
            assert(bodies@.take(i as int) =~= bodies@);
        }
        ControllerParameters {
            id: ControllerID::role(actor_ref, Role::Retributionist, 0),
            available: AvailableAbilitySelection::TwoPlayerOption {
                available_first_players: first,
                available_second_players: filter_players(game, Some(true), &Vec::new(), None),
                can_choose_duplicates: true,
                can_choose_none: true,
            },
            grayed_out: false,
            night_typical: true,
            reset_on_phase_start: None,
            dont_save: false,
            default_selection: None,
            allowed_players: vec![actor_ref],
        }
    }

    /// At nightfall no body is in use.
    pub fn on_phase_start(self, phase: PhaseType) -> (r: Retributionist)
        ensures
            r.used_bodies@ == self.used_bodies@,
            phase == PhaseType::Night ==> r.currently_used_player is None,
            phase != PhaseType::Night ==> r.currently_used_player == self.currently_used_player,
    {
        if phase == PhaseType::Night {
            Retributionist { used_bodies: self.used_bodies, currently_used_player: None }
        } else {
            self
        }
    }
}

impl GetClientRoleState<ClientRoleState> for Retributionist {
    fn get_client_role_state(self, game: &Game, actor_ref: PlayerReference) -> ClientRoleState {
        ClientRoleState
    }
}

} // verus!

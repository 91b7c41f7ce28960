//! The necromancer: works the abilities of dead players, each at most twice.

use vstd::prelude::*;
use crate::game::{Game, data, valid_player, game_ok, alive, filtered, filter_players};
use crate::game::player::PlayerReference;
use crate::game::phase::PhaseType;
use crate::game::visit::Visit;
use crate::game::ability_input::{ControllerID, ControllerParameters, AvailableAbilitySelection, AbilitySelection};
use super::{Role, GetClientRoleState};
use super::common_role::{selection_visits, convert_controller_selection_to_visits};

verus! {

#[derive(Debug)]
pub struct Necromancer {
    /// The bodies used so far, once per use.
    pub used_bodies: Vec<PlayerReference>,
    pub currently_used_player: Option<PlayerReference>,
}

#[derive(Clone, Copy, Debug)]
pub struct ClientRoleState;

impl Default for Necromancer {
    fn default() -> (r: Self)
        ensures
            r.used_bodies@.len() == 0,
            r.currently_used_player is None,
    {
        Necromancer { used_bodies: Vec::new(), currently_used_player: None }
    }
}

/// How often `p` occurs in `s`.
pub open spec fn uses(s: Seq<PlayerReference>, p: PlayerReference) -> nat {
    s.filter(|x: PlayerReference| same_player(p, x)).len()
}

pub open spec fn same_player(p: PlayerReference, x: PlayerReference) -> bool {
    x == p
}

/// The dead other than `actor` whose body has been used fewer than twice.
pub open spec fn usable_bodies(game: Game, actor: PlayerReference, used: Seq<PlayerReference>) -> Seq<PlayerReference> {
    filtered(game, (Some(false), seq![actor], None)).filter(|p: PlayerReference| uses(used, p) < 2)
}

/// The count of `p` in `v`, as `uses` states it.
pub fn count_uses(v: &Vec<PlayerReference>, p: PlayerReference) -> (r: usize)
    ensures
        r == uses(v@, p),
{
    let ghost pred = |x: PlayerReference| same_player(p, x);
    let mut c: usize = 0;
    let mut i: usize = 0;
    while i < v.len()
        invariant
            i <= v@.len(),
            pred == (|x: PlayerReference| same_player(p, x)),
            c == v@.take(i as int).filter(pred).len(),
            c <= i,
        decreases v@.len() - i,
    {
        if v[i] == p {
            c = c + 1;
        }
        proof {
            reveal_with_fuel(Seq::filter, 1);
            let t1 = v@.take(i as int + 1);
            assert(t1.drop_last() =~= v@.take(i as int));
            assert(t1.last() == v@[i as int]);
        }
        i = i + 1;
    }
    proof {
        assert(v@.take(i as int) =~= v@);
    }
    c
}

/// The dead other than `actor` usable fewer than twice so far, in index order.
pub fn usable_bodies_of(game: &Game, actor_ref: PlayerReference, used: &Vec<PlayerReference>) -> (r: Vec<PlayerReference>)
    requires
        game_ok(*game),
    ensures
        r@ == usable_bodies(*game, actor_ref, used@),
        forall|j: int| 0 <= j < r@.len() ==> valid_player(*game, #[trigger] r@[j]),
{
    let exclude = vec![actor_ref];
    let dead = filter_players(game, Some(false), &exclude, None);
    proof {
        assert(exclude@ =~= seq![actor_ref]);
        assert forall|j: int| 0 <= j < dead@.len() implies valid_player(*game, #[trigger] dead@[j]) by {
            crate::game::lemma_filtered_contains(*game, (Some(false), seq![actor_ref], None), game.players@.len() as int, dead@[j]);
        }
    }
    let ghost pred = |p: PlayerReference| uses(used@, p) < 2;
    let mut out: Vec<PlayerReference> = Vec::new();
    let mut i: usize = 0;
    while i < dead.len()
        invariant
            i <= dead@.len(),
            pred == (|p: PlayerReference| uses(used@, p) < 2),
            out@ == dead@.take(i as int).filter(pred),
            forall|j: int| 0 <= j < dead@.len() ==> valid_player(*game, #[trigger] dead@[j]),
            forall|j: int| 0 <= j < out@.len() ==> valid_player(*game, #[trigger] out@[j]),
        decreases dead@.len() - i,
    {
        let p = dead[i];
        if count_uses(used, p) < 2 {
            out.push(p);
        }
        proof {
            reveal_with_fuel(Seq::filter, 1);
            let t1 = dead@.take(i as int + 1);
            assert(t1.drop_last() =~= dead@.take(i as int));
            assert(t1.last() == p);
        }
        i = i + 1;
    }
    proof {
        assert(dead@.take(i as int) =~= dead@);
    }
    out
}

impl Necromancer {
    /// The game works a body's ability for the necromancer; when it did, the
    /// body is counted as used and is the one in use.
    pub fn do_night_action(self, used_body: Option<PlayerReference>) -> (r: Necromancer)
        ensures
            used_body matches Some(b) ==> r.used_bodies@ == self.used_bodies@.push(b) && r.currently_used_player == Some(b),
            used_body is None ==> r.used_bodies@ == self.used_bodies@ && r.currently_used_player == self.currently_used_player,
    {
        match used_body {
            Some(b) => {
                let mut used = self.used_bodies;
                used.push(b);
                Necromancer { used_bodies: used, currently_used_player: Some(b) }
            },
            None => self,
        }
    }

    /// A usable body and a living player to use it on, or none, repeats
    /// allowed; grayed out while the necromancer is dead or detained;
    /// cleared at the obituary.
    pub fn controller_parameters_map(&self, game: &Game, actor_ref: PlayerReference) -> (r: ControllerParameters)
        requires
            game_ok(*game),
        ensures
            r.id == ControllerID::role(actor_ref, Role::Necromancer, 0),
            r.available matches AvailableAbilitySelection::TwoPlayerOption {
                available_first_players,
                available_second_players,
                can_choose_duplicates,
                can_choose_none,
            } && available_first_players@ == usable_bodies(*game, actor_ref, self.used_bodies@)
                && available_second_players@ == filtered(*game, (Some(true), Seq::empty(), None)) && can_choose_duplicates
                && can_choose_none,
            r.default_selection == Some(AbilitySelection::TwoPlayerOption(None)),
            r.grayed_out == (!alive(*game, actor_ref) || (valid_player(*game, actor_ref) && data(*game, actor_ref).detained)),
            r.reset_on_phase_start == Some(PhaseType::Obituary),
            r.allowed_players@ == seq![actor_ref],
    {
        let grayed = !crate::game::player_alive(game, actor_ref) || game.players[actor_ref.index as usize].detained;
        ControllerParameters {
            id: ControllerID::role(actor_ref, Role::Necromancer, 0),
            available: AvailableAbilitySelection::TwoPlayerOption {
                available_first_players: usable_bodies_of(game, actor_ref, &self.used_bodies),
                available_second_players: filter_players(game, Some(true), &Vec::new(), None),
                can_choose_duplicates: true,
                can_choose_none: true,
            },
            grayed_out: grayed,
            night_typical: false,
            reset_on_phase_start: Some(PhaseType::Obituary),
            dont_save: false,
            default_selection: Some(AbilitySelection::TwoPlayerOption(None)),
            allowed_players: vec![actor_ref],
        }
    }

    pub fn convert_selection_to_visits(&self, game: &Game, actor_ref: PlayerReference) -> (r: Vec<Visit>)
        ensures
            r@ == selection_visits(*game, actor_ref, Role::Necromancer, 0, false),
    {
        convert_controller_selection_to_visits(game, actor_ref, Role::Necromancer, 0, false)
    }

    /// At nightfall no body is in use.
    pub fn on_phase_start(self, phase: PhaseType) -> (r: Necromancer)
        ensures
            r.used_bodies@ == self.used_bodies@,
            phase == PhaseType::Night ==> r.currently_used_player is None,
            phase != PhaseType::Night ==> r.currently_used_player == self.currently_used_player,
    {
        if phase == PhaseType::Night {
            Necromancer { used_bodies: self.used_bodies, currently_used_player: None }
        } else {
            self
        }
    }
}

impl GetClientRoleState<ClientRoleState> for Necromancer {
    fn get_client_role_state(self, game: &Game, actor_ref: PlayerReference) -> ClientRoleState {
        ClientRoleState
    }
}

} // verus!

//! The vampire: bites a living player the vampires do not yet track.

use vstd::prelude::*;
use crate::game::{Game, data, valid_player, game_ok, filtered, filter_players};
use crate::game::player::PlayerReference;
use crate::game::phase::PhaseType;
use crate::game::visit::Visit;
use crate::game::ability_input::{ControllerID, ControllerParameters, AvailableAbilitySelection, AbilitySelection};
use super::Role;
use super::common_role::{selection_visits, convert_controller_selection_to_visits};

verus! {

#[derive(Clone, Copy, Debug, Default)]
pub struct Vampire;

pub open spec fn untracked_living(game: Game) -> Seq<PlayerReference> {
    filtered(game, (Some(true), Seq::empty(), None)).filter(|p: PlayerReference| !data(game, p).vampire_tracked)
}

impl Vampire {
    /// A living player the vampires do not track, or none; cleared at the
    /// discussion.
    pub fn controller_parameters_map(&self, game: &Game, actor_ref: PlayerReference) -> (r: ControllerParameters)
        requires
            game_ok(*game),
        ensures
            r.id == ControllerID::role(actor_ref, Role::Vampire, 0),
            r.available matches AvailableAbilitySelection::PlayerList { available_players, can_choose_duplicates, max_players }
                && available_players@ == untracked_living(*game) && !can_choose_duplicates && max_players == Some(1u8),
            r.default_selection matches Some(AbilitySelection::PlayerList(v)) && v@.len() == 0,
            !r.grayed_out,
            r.reset_on_phase_start == Some(PhaseType::Discussion),
            r.allowed_players@ == seq![actor_ref],
    {
        let living = filter_players(game, Some(true), &Vec::new(), None);
        proof {
            assert forall|j: int| 0 <= j < living@.len() implies valid_player(*game, #[trigger] living@[j]) by {
                crate::game::lemma_filtered_contains(*game, (Some(true), Seq::empty(), None), game.players@.len() as int, living@[j]);
            }
        }
        let ghost pred = |p: PlayerReference| !data(*game, p).vampire_tracked;
        let mut avail: Vec<PlayerReference> = Vec::new();
        let mut i: usize = 0;
        while i < living.len()
            invariant
                i <= living@.len(),
                forall|j: int| 0 <= j < living@.len() ==> valid_player(*game, #[trigger] living@[j]),
                pred == (|p: PlayerReference| !data(*game, p).vampire_tracked),
                avail@ == living@.take(i as int).filter(pred),
            decreases living@.len() - i,
        {
            let p = living[i];
            if !game.players[p.index as usize].vampire_tracked {
                avail.push(p);
            }
            proof {
                reveal_with_fuel(Seq::filter, 1);
                let t1 = living@.take(i as int + 1);
                assert(t1.drop_last() =~= living@.take(i as int));
                assert(t1.last() == p);
            }
            i = i + 1;
        }
        proof {
            assert(living@.take(i as int) =~= living@);
        }
        ControllerParameters {
            id: ControllerID::role(actor_ref, Role::Vampire, 0),
            available: AvailableAbilitySelection::PlayerList {
                available_players: avail,
                can_choose_duplicates: false,
                max_players: Some(1),
            },
            grayed_out: false,
            night_typical: false,
            reset_on_phase_start: Some(PhaseType::Discussion),
            dont_save: false,
            default_selection: Some(AbilitySelection::PlayerList(Vec::new())),
            allowed_players: vec![actor_ref],
        }
    }

    /// The bite is an attacking visit.
    pub fn convert_selection_to_visits(&self, game: &Game, actor_ref: PlayerReference) -> (r: Vec<Visit>)
        ensures
            r@ == selection_visits(*game, actor_ref, Role::Vampire, 0, true),
    {
        convert_controller_selection_to_visits(game, actor_ref, Role::Vampire, 0, true)
    }
}

} // verus!

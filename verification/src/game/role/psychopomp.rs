//! The psychopomp: speaks with the dead, and guides up to two of them.

use vstd::prelude::*;
use crate::vec_set::{VecSet, dedup};
use crate::game::{Game, data, valid_player, game_ok, alive, filtered, filter_players};
use crate::game::player::PlayerReference;
use crate::game::chat::ChatGroup;
use crate::game::phase::PhaseType;
use crate::game::ability_input::{
    ControllerID, ControllerParameters, AvailableAbilitySelection, AbilitySelection, saved_player_list,
    get_player_list_selection,
};
use super::Role;
use super::common_role::copy_players;

verus! {

#[derive(Debug)]
pub struct Psychopomp {
    pub targets: VecSet<PlayerReference>,
}

impl Default for Psychopomp {
    fn default() -> (r: Self)
        ensures
            r.targets@.len() == 0,
    {
        Psychopomp { targets: VecSet::new() }
    }
}

/// `common` with `group` added at the end when `add` holds and it is not there.
pub open spec fn with_group(common: Seq<ChatGroup>, add: bool, group: ChatGroup) -> Seq<ChatGroup> {
    if add && !common.contains(group) {
        common.push(group)
    } else {
        common
    }
}

impl Psychopomp {
    /// Up to two dead players other than the psychopomp, cleared at
    /// nightfall, grayed out once its ability is gone.
    pub fn controller_parameters_map(&self, game: &Game, actor_ref: PlayerReference) -> (r: ControllerParameters)
        requires
            game_ok(*game),
            valid_player(*game, actor_ref),
        ensures
            r.id == ControllerID::role(actor_ref, Role::Psychopomp, 0),
            r.available matches AvailableAbilitySelection::PlayerList { available_players, can_choose_duplicates, max_players }
                && available_players@ == filtered(*game, (Some(false), seq![actor_ref], None)) && !can_choose_duplicates
                && max_players == Some(2u8),
            r.default_selection matches Some(AbilitySelection::PlayerList(v)) && v@.len() == 0,
            r.grayed_out == data(*game, actor_ref).ability_deactivated_from_death,
            r.reset_on_phase_start == Some(PhaseType::Night),
            r.allowed_players@ == seq![actor_ref],
    {
        let exclude = vec![actor_ref];
        let dead = filter_players(game, Some(false), &exclude, None);
        proof {
            assert(exclude@ =~= seq![actor_ref]);
        }
        ControllerParameters {
            id: ControllerID::role(actor_ref, Role::Psychopomp, 0),
            available: AvailableAbilitySelection::PlayerList {
                available_players: dead,
                can_choose_duplicates: false,
                max_players: Some(2),
            },
            grayed_out: game.players[actor_ref.index as usize].ability_deactivated_from_death,
            night_typical: false,
            reset_on_phase_start: Some(PhaseType::Night),
            dont_save: false,
            default_selection: Some(AbilitySelection::PlayerList(Vec::new())),
            allowed_players: vec![actor_ref],
        }
    }

    /// A living psychopomp also writes in the dead chat during the obituary.
    pub fn get_current_send_chat_groups(&self, game: &Game, actor_ref: PlayerReference, common: VecSet<ChatGroup>) -> (r: VecSet<ChatGroup>)
        ensures
            r@ == with_group(common@, game.phase == PhaseType::Obituary && alive(*game, actor_ref), ChatGroup::Dead),
    {
        let mut out = common;
        if game.phase == PhaseType::Obituary && crate::game::player_alive(game, actor_ref) {
            out.insert(ChatGroup::Dead);
        }
        out
    }

    /// A living psychopomp reads the dead chat at night when free, and
    /// during the obituary.
    pub fn get_current_receive_chat_groups(&self, game: &Game, actor_ref: PlayerReference, common: VecSet<ChatGroup>) -> (r: VecSet<ChatGroup>)
        requires
            valid_player(*game, actor_ref),
        ensures
            r@ == with_group(
                common@,
                ((!data(*game, actor_ref).detained && game.phase == PhaseType::Night) || game.phase == PhaseType::Obituary)
                    && alive(*game, actor_ref),
                ChatGroup::Dead,
            ),
    {
        let mut out = common;
        if ((!game.players[actor_ref.index as usize].detained && game.phase == PhaseType::Night) || game.phase
            == PhaseType::Obituary) && crate::game::player_alive(game, actor_ref) {
            out.insert(ChatGroup::Dead);
        }
        out
    }

    /// At nightfall the psychopomp guides the dead it picked, each once,
    /// unless its ability is gone; it guides no one otherwise.
    pub fn on_phase_start(self, game: &Game, actor_ref: PlayerReference, phase: PhaseType) -> (r: Psychopomp)
        requires
            valid_player(*game, actor_ref),
        ensures
            phase == PhaseType::Night ==> r.targets@ == match saved_player_list(*game, ControllerID::role(actor_ref, Role::Psychopomp, 0)) {
                Some(list) => if data(*game, actor_ref).ability_deactivated_from_death {
                    Seq::empty()
                } else {
                    dedup(list)
                },
                None => Seq::empty(),
            },
            phase != PhaseType::Night ==> r.targets@ == self.targets@,
    {
        if phase != PhaseType::Night {
            return self;
        }
        match get_player_list_selection(game, ControllerID::role(actor_ref, Role::Psychopomp, 0)) {
            Some(list) => {
                if game.players[actor_ref.index as usize].ability_deactivated_from_death {
                    Psychopomp { targets: VecSet::new() }
                } else {
                    Psychopomp { targets: VecSet::from_vec(copy_players(list)) }
                }
            },
            None => Psychopomp { targets: VecSet::new() },
        }
    }
}

} // verus!

//! The mortician: tags players, and cremates the graves of tagged players,
//! learning their role and will.

use vstd::prelude::*;
use crate::game::{Game, data, valid_player, game_ok, filtered, tagged, has_tag};
use crate::game::player::PlayerReference;
use crate::game::chat::ChatMessageVariant;
use crate::game::effect::{Effect, TagSetID};
use crate::game::visit::Visit;
use crate::game::ability_input::{ControllerID, ControllerParameters, AvailableAbilitySelection};
use super::{Role, OnMidnightPriority};
use super::common_role::{spec_first_visit, first_visit, selection_visits, convert_controller_selection_to_visits};

verus! {

#[derive(Clone, Copy, Debug, PartialEq, Eq, Structural)]
pub struct Mortician {
    pub cremations_remaining: u8,
}

impl Default for Mortician {
    fn default() -> (r: Self)
        ensures
            r.cremations_remaining == 3,
    {
        Mortician { cremations_remaining: 3 }
    }
}

pub open spec fn mortician_tagged(game: Game, actor: PlayerReference) -> Seq<PlayerReference> {
    tagged(game, TagSetID::MorticianTag(actor))
}

/// Whether the mortician cremates the grave of `player`: its ability works,
/// the player is tagged, and it has a cremation left.
pub open spec fn cremates(game: Game, actor: PlayerReference, state: Mortician, player: PlayerReference) -> bool {
    !data(game, actor).ability_deactivated_from_death && mortician_tagged(game, actor).contains(player)
        && state.cremations_remaining > 0
}

/// Whether `e` tells the mortician the role and will of `player`.
pub open spec fn is_alibi(game: Game, actor: PlayerReference, player: PlayerReference, e: Effect) -> bool {
    match e {
        Effect::PrivateMessage { to, message: ChatMessageVariant::PlayerRoleAndAlibi { player: p, role, will } } => to
            == actor && p == player && role == data(game, player).role && will@ == data(game, player).will@,
        _ => false,
    }
}

impl Mortician {
    pub fn new_state(game: &Game) -> (r: Mortician)
        requires
            game.players@.len() < 256,
        ensures
            r.cremations_remaining == (game.players@.len() + 4) / 5,
    {
        let n = game.num_players();
        Mortician { cremations_remaining: n / 5 + if n % 5 > 0 { 1 } else { 0 } }
    }

    /// At the deception step the mortician tags the player it visits, unless
    /// they already are.
    pub fn on_midnight(&self, game: &Game, actor_ref: PlayerReference, priority: OnMidnightPriority) -> (r: Vec<Effect>)
        requires
            valid_player(*game, actor_ref),
        ensures
            r@ == if priority == OnMidnightPriority::Deception {
                match spec_first_visit(*game, actor_ref) {
                    Some(v) => if mortician_tagged(*game, actor_ref).contains(v.target) {
                        Seq::empty()
                    } else {
                        seq![Effect::AddTag { set: TagSetID::MorticianTag(actor_ref), player: v.target }]
                    },
                    None => Seq::empty(),
                }
            } else {
                Seq::empty()
            },
    {
        let mut out: Vec<Effect> = Vec::new();
        if priority == OnMidnightPriority::Deception {
            match first_visit(game, actor_ref) {
                Some(v) => {
                    if !has_tag(game, TagSetID::MorticianTag(actor_ref), v.target) {
                        out.push(Effect::AddTag { set: TagSetID::MorticianTag(actor_ref), player: v.target });
                    }
                },
                None => {},
            }
        }
        out
    }

    /// The mortician picks another living player it has not tagged, at night.
    pub fn controller_parameters_map(&self, game: &Game, actor_ref: PlayerReference) -> (r: ControllerParameters)
        requires
            game_ok(*game),
        ensures
            r.id == ControllerID::role(actor_ref, Role::Mortician, 0),
            r.available matches AvailableAbilitySelection::PlayerList { available_players, can_choose_duplicates, max_players }
                && available_players@ == filtered(*game, (Some(true), mortician_tagged(*game, actor_ref).push(actor_ref), None))
                && !can_choose_duplicates && max_players == Some(1u8),
            r.night_typical,
            !r.grayed_out,
    {
        let mut exclude = crate::game::tagged_players(game, TagSetID::MorticianTag(actor_ref));
        exclude.push(actor_ref);
        ControllerParameters {
            id: ControllerID::role(actor_ref, Role::Mortician, 0),
            available: AvailableAbilitySelection::PlayerList {
                available_players: crate::game::filter_players(game, Some(true), &exclude, None),
                can_choose_duplicates: false,
                max_players: Some(1),
            },
            grayed_out: false,
            night_typical: true,
            reset_on_phase_start: None,
            dont_save: false,
            default_selection: None,
            allowed_players: vec![actor_ref],
        }
    }

    pub fn convert_selection_to_visits(&self, game: &Game, actor_ref: PlayerReference) -> (r: Vec<Visit>)
        ensures
            r@ == selection_visits(*game, actor_ref, Role::Mortician, 0, false),
    {
        convert_controller_selection_to_visits(game, actor_ref, Role::Mortician, 0, false)
    }

    /// When the grave of `player` is dug, a mortician that cremates it
    /// learns their role and will, hides the grave, and spends a cremation.
    pub fn on_grave_added(&self, game: &Game, actor_ref: PlayerReference, player: PlayerReference) -> (r: (Mortician, Vec<Effect>))
        requires
            valid_player(*game, actor_ref),
            valid_player(*game, player),
        ensures
            cremates(*game, actor_ref, *self, player) ==> r.0.cremations_remaining == self.cremations_remaining - 1
                && r.1@.len() == 2 && is_alibi(*game, actor_ref, player, r.1@[0]) && r.1@[1] == (Effect::ObscureGrave {
                player,
            }),
            !cremates(*game, actor_ref, *self, player) ==> r.0 == *self && r.1@.len() == 0,
    {
        let mut out: Vec<Effect> = Vec::new();
        if !game.players[actor_ref.index as usize].ability_deactivated_from_death
            && has_tag(game, TagSetID::MorticianTag(actor_ref), player) && self.cremations_remaining > 0 {
            let d = &game.players[player.index as usize];
            out.push(
                Effect::PrivateMessage {
                    to: actor_ref,
                    message: ChatMessageVariant::PlayerRoleAndAlibi { player, role: d.role, will: d.will.clone() },
                },
            );
            out.push(Effect::ObscureGrave { player });
            (Mortician { cremations_remaining: self.cremations_remaining - 1 }, out)
        } else {
            (*self, out)
        }
    }
}

} // verus!

//! The wildcard: becomes a role it names, if that role can still be drawn.

use vstd::prelude::*;
use crate::game::{Game, data, valid_player, player_roles, all_player_roles};
use crate::game::player::PlayerReference;
use crate::game::chat::ChatMessageVariant;
use crate::game::effect::Effect;
use crate::game::role_list::{role_can_generate, spec_role_can_generate};
use crate::game::ability_input::{
    ControllerID, ControllerParameters, AvailableAbilitySelection, AbilitySelection, saved_role_option,
    get_role_option_selection,
};
use super::{Role, all_roles};

verus! {

#[derive(Clone, Copy, Debug, Default)]
pub struct Wildcard;

/// Becoming a role: the role saved in the controller of index 0 that
/// `role` names for the wildcard's player is become when it can still be
/// drawn with every player's role taken; otherwise it is refused.
pub open spec fn wildcard_become(game: Game, actor: PlayerReference, role: Role) -> Seq<Effect> {
    match saved_role_option(game, ControllerID::role(actor, role, 0)) {
        Some(r) => if spec_role_can_generate(r, game.settings.enabled_roles@, player_roles(game)) {
            seq![Effect::SwitchRole { target: actor, role: r }]
        } else {
            seq![Effect::PrivateMessage { to: actor, message: ChatMessageVariant::WildcardConvertFailed { role: r } }]
        },
        None => Seq::empty(),
    }
}

/// The enabled roles other than the wildcard, in catalogue order, each as an
/// option, and then no role.
pub open spec fn wildcard_options(game: Game) -> Seq<Option<Role>> {
    all_roles().filter(|r: Role| wildcard_pickable(game, r)).map_values(|r: Role| Some(r)).push(None)
}

pub open spec fn wildcard_pickable(game: Game, r: Role) -> bool {
    game.settings.enabled_roles@.contains(r) && r != Role::Wildcard
}

impl Wildcard {
    pub fn become_role(game: &Game, actor_ref: PlayerReference, role: Role) -> (r: Vec<Effect>)
        ensures
            r@ == wildcard_become(*game, actor_ref, role),
    {
        let picked = match get_role_option_selection(game, ControllerID::role(actor_ref, role, 0)) {
            Some(r) => r,
            None => return Vec::new(),
        };
        let taken = all_player_roles(game);
        if role_can_generate(picked, &game.settings.enabled_roles, taken.as_slice()) {
            vec![Effect::SwitchRole { target: actor_ref, role: picked }]
        } else {
            vec![Effect::PrivateMessage { to: actor_ref, message: ChatMessageVariant::WildcardConvertFailed { role: picked } }]
        }
    }

    /// A role picked in the wildcard's controller is become at once.
    pub fn on_validated_ability_input_received(
        &self,
        game: &Game,
        actor_ref: PlayerReference,
        id: ControllerID,
        selection: &AbilitySelection,
    ) -> (r: Vec<Effect>)
        ensures
            r@ == match *selection {
                AbilitySelection::RoleOption(Some(role)) => if id == ControllerID::role(actor_ref, Role::Wildcard, 0) {
                    wildcard_become(*game, actor_ref, role)
                } else {
                    Seq::empty()
                },
                _ => Seq::empty(),
            },
    {
        if id != ControllerID::role(actor_ref, Role::Wildcard, 0) {
            return Vec::new();
        }
        match selection {
            AbilitySelection::RoleOption(Some(role)) => Wildcard::become_role(game, actor_ref, *role),
            _ => Vec::new(),
        }
    }

    /// Any enabled role but its own, or none; grayed out once its ability is gone.
    pub fn controller_parameters_map(&self, game: &Game, actor_ref: PlayerReference) -> (r: ControllerParameters)
        requires
            valid_player(*game, actor_ref),
        ensures
            r.id == ControllerID::role(actor_ref, Role::Wildcard, 0),
            r.available matches AvailableAbilitySelection::RoleOption { available_roles }
                && available_roles@ == wildcard_options(*game),
            r.grayed_out == data(*game, actor_ref).ability_deactivated_from_death,
            r.allowed_players@ == seq![actor_ref],
    {
        let all = Role::values();
        let ghost pred = |r: Role| wildcard_pickable(*game, r);
        let ghost kept: Seq<Role> = Seq::empty();
        let mut options: Vec<Option<Role>> = Vec::new();
        let mut i: usize = 0;
        while i < all.len()
            invariant
                i <= all@.len(),
                all@ == all_roles(),
                pred == (|r: Role| wildcard_pickable(*game, r)),
                kept == all@.take(i as int).filter(pred),
                options@ == kept.map_values(|r: Role| Some(r)),
            decreases all@.len() - i,
        {
            let x = all[i];
            if game.settings.enabled_roles.contains(&x) && x != Role::Wildcard {
                options.push(Some(x));
            }
            proof {
                reveal_with_fuel(Seq::filter, 1);
                let t1 = all@.take(i as int + 1);
                assert(t1.drop_last() =~= all@.take(i as int));
                assert(t1.last() == x);
                let prev = kept;
                kept = t1.filter(pred);
                if pred(x) {
                    assert(kept == prev.push(x));
                    assert(options@ =~= kept.map_values(|r: Role| Some(r)));
                }
            }
            i = i + 1;
        }
        proof {
            assert(all@.take(i as int) =~= all@);
        }
        options.push(None);
        ControllerParameters {
            id: ControllerID::role(actor_ref, Role::Wildcard, 0),
            available: AvailableAbilitySelection::RoleOption { available_roles: options },
            grayed_out: game.players[actor_ref.index as usize].ability_deactivated_from_death,
            night_typical: false,
            reset_on_phase_start: None,
            dont_save: false,
            default_selection: None,
            allowed_players: vec![actor_ref],
        }
    }
}

} // verus!

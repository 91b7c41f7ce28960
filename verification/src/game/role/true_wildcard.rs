//! The true wildcard: becomes any enabled role it names.

use vstd::prelude::*;
use crate::vec_set::VecSet;
use crate::game::{Game, data, valid_player};
use crate::game::player::PlayerReference;
use crate::game::chat::ChatMessageVariant;
use crate::game::effect::Effect;
use crate::game::role_list::{role_can_generate, spec_role_can_generate};
use crate::game::ability_input::{ControllerID, ControllerParameters, AvailableAbilitySelection, AbilitySelection};
use super::Role;

verus! {

#[derive(Clone, Copy, Debug, Default)]
pub struct TrueWildcard;

/// Becoming `role`: granted when the role could be drawn with nothing
/// taken, else refused with a message.
pub open spec fn become_effects(game: Game, actor: PlayerReference, role: Role) -> Seq<Effect> {
    if spec_role_can_generate(role, game.settings.enabled_roles@, Seq::empty()) {
        seq![Effect::SwitchRole { target: actor, role }]
    } else {
        seq![Effect::PrivateMessage { to: actor, message: ChatMessageVariant::WildcardConvertFailed { role } }]
    }
}

/// The enabled roles other than `except`, each as an option.
pub open spec fn role_options(game: Game, except: Role) -> Seq<Option<Role>> {
    game.settings.enabled_roles@.filter(|r: Role| other_role(except, r)).map_values(|r: Role| Some(r))
}

pub open spec fn other_role(except: Role, r: Role) -> bool {
    r != except
}

/// The enabled roles other than `except`, each as an option.
pub fn role_options_of(game: &Game, except: Role) -> (r: Vec<Option<Role>>)
    ensures
        r@ == role_options(*game, except),
{
    let enabled = game.settings.enabled_roles.as_vec();
    let ghost pred = |r: Role| other_role(except, r);
    let ghost kept: Seq<Role> = Seq::empty();
    let mut out: Vec<Option<Role>> = Vec::new();
    let mut i: usize = 0;
    while i < enabled.len()
        invariant
            i <= enabled@.len(),
            enabled@ == game.settings.enabled_roles@,
            pred == (|r: Role| other_role(except, r)),
            kept == enabled@.take(i as int).filter(pred),
            out@ == kept.map_values(|r: Role| Some(r)),
        decreases enabled@.len() - i,
    {
        let x = enabled[i];
        if x != except {
            out.push(Some(x));
        }
        proof {
            reveal_with_fuel(Seq::filter, 1);
            let t1 = enabled@.take(i as int + 1);
            assert(t1.drop_last() =~= enabled@.take(i as int));
            assert(t1.last() == x);
            let prev = kept;
            kept = t1.filter(pred);
            if x != except {
                assert(kept == prev.push(x));
                assert(out@ =~= kept.map_values(|r: Role| Some(r)));
            }
        }
        i = i + 1;
    }
    proof {
        assert(enabled@.take(i as int) =~= enabled@);
    }
    out
}

impl TrueWildcard {
    pub fn become_role(game: &Game, actor_ref: PlayerReference, role: Role) -> (r: Vec<Effect>)
        ensures
            r@ == become_effects(*game, actor_ref, role),
    {
        let none: Vec<Role> = Vec::new();
        if role_can_generate(role, &game.settings.enabled_roles, none.as_slice()) {
            vec![Effect::SwitchRole { target: actor_ref, role }]
        } else {
            vec![Effect::PrivateMessage { to: actor_ref, message: ChatMessageVariant::WildcardConvertFailed { role } }]
        }
    }

    /// A role picked in the true wildcard's controller is become at once.
    pub fn on_validated_ability_input_received(
        &self,
        game: &Game,
        actor_ref: PlayerReference,
        id: ControllerID,
        selection: &AbilitySelection,
    ) -> (r: Vec<Effect>)
        ensures
            r@ == match *selection {
                AbilitySelection::RoleOption(Some(role)) => if id == ControllerID::role(actor_ref, Role::TrueWildcard, 0) {
                    become_effects(*game, actor_ref, role)
                } else {
                    Seq::empty()
                },
                _ => Seq::empty(),
            },
    {
        if id != ControllerID::role(actor_ref, Role::TrueWildcard, 0) {
            return Vec::new();
        }
        match selection {
            AbilitySelection::RoleOption(Some(role)) => TrueWildcard::become_role(game, actor_ref, *role),
            _ => Vec::new(),
        }
    }

    /// Any enabled role but its own, grayed out once its ability is gone.
    pub fn controller_parameters_map(&self, game: &Game, actor_ref: PlayerReference) -> (r: ControllerParameters)
        requires
            valid_player(*game, actor_ref),
        ensures
            r.id == ControllerID::role(actor_ref, Role::TrueWildcard, 0),
            r.available matches AvailableAbilitySelection::RoleOption { available_roles }
                && available_roles@ == role_options(*game, Role::TrueWildcard),
            r.grayed_out == data(*game, actor_ref).ability_deactivated_from_death,
            r.allowed_players@ == seq![actor_ref],
    {
        ControllerParameters {
            id: ControllerID::role(actor_ref, Role::TrueWildcard, 0),
            available: AvailableAbilitySelection::RoleOption { available_roles: role_options_of(game, Role::TrueWildcard) },
            grayed_out: game.players[actor_ref.index as usize].ability_deactivated_from_death,
            night_typical: false,
            reset_on_phase_start: None,
            dont_save: false,
            default_selection: None,
            allowed_players: vec![actor_ref],
        }
    }
}

} // verus!

//! The yer: a fiend who kills, or passes its star on to a player, dying in
//! their place and leaving a role of its choosing on its grave.

use vstd::prelude::*;
use crate::game::{Game, data, valid_player, game_ok};
use crate::game::player::PlayerReference;
use crate::game::chat::ChatMessageVariant;
use crate::game::effect::{Effect, GraveKiller};
use crate::game::attack_power::{AttackPower, pierces};
use crate::game::game_conclusion::GameConclusion;
use crate::game::visit::Visit;
use crate::game::ability_input::{
    ControllerID, ControllerParameters, AvailableAbilitySelection, AbilitySelection, saved_boolean,
    get_boolean_selection, saved_role_list, get_role_list_selection,
};
use super::{Role, OnMidnightPriority};
use super::common_role::{spec_first_visit, first_visit, visits_ok, selection_visits, convert_controller_selection_to_visits};

verus! {

#[derive(Clone, Copy, Debug, PartialEq, Eq, Structural)]
pub struct Yer {
    pub star_passes_remaining: u8,
    pub old_role: Role,
}

impl Default for Yer {
    fn default() -> (r: Self)
        ensures
            r.star_passes_remaining == 3,
            r.old_role == Role::Yer,
    {
        Yer { star_passes_remaining: 3, old_role: Role::Yer }
    }
}

/// The role the yer poses as on its grave: the one picked in its third
/// controller, else its old role.
pub open spec fn fake_role(game: Game, actor: PlayerReference, state: Yer) -> Role {
    match saved_role_list(game, ControllerID::role(actor, Role::Yer, 2)) {
        Some(roles) => if roles.len() > 0 {
            roles[0]
        } else {
            state.old_role
        },
        None => state.old_role,
    }
}

/// The yer's night. After the first night it attacks the player it visits,
/// unless it chose to pass its star; then, at the convert step and with a
/// pass left, a target whose defense an armor-piercing attack gets through
/// becomes a yer loyal to the fiends, and the yer dies in its stead with its
/// chosen role on its grave; a stronger defense makes the convert fail.
pub open spec fn yer_night(game: Game, actor: PlayerReference, state: Yer, priority: OnMidnightPriority) -> (Yer, Seq<Effect>) {
    let convert = saved_boolean(game, ControllerID::role(actor, Role::Yer, 0)) == Some(true);
    if game.day_number == 1 {
        (state, Seq::empty())
    } else {
        match spec_first_visit(game, actor) {
            None => (state, Seq::empty()),
            Some(v) => {
                let target = v.target;
                if !convert {
                    if priority == OnMidnightPriority::Kill {
                        (
                            state,
                            seq![
                                Effect::Attack {
                                    attacker: actor,
                                    target,
                                    killer: GraveKiller::Role(Role::Yer),
                                    power: AttackPower::ArmorPiercing,
                                    leave_death_note: true,
                                },
                            ],
                        )
                    } else {
                        (state, Seq::empty())
                    }
                } else if priority != OnMidnightPriority::Convert || state.star_passes_remaining == 0 {
                    (state, Seq::empty())
                } else if !pierces(AttackPower::ArmorPiercing, data(game, target).defense) {
                    (state, seq![Effect::NightMessage { to: actor, message: ChatMessageVariant::YourConvertFailed }])
                } else {
                    let passes = (state.star_passes_remaining - 1) as u8;
                    (
                        Yer { star_passes_remaining: passes, old_role: state.old_role },
                        seq![
                            Effect::GraveRole { target: actor, role: fake_role(game, actor, state) },
                            Effect::LoyalistOf { player: target, conclusion: GameConclusion::Fiends },
                            Effect::ConvertToYer { target, star_passes_remaining: passes, old_role: data(game, target).role },
                            Effect::Attack {
                                attacker: actor,
                                target: actor,
                                killer: GraveKiller::Role(Role::Yer),
                                power: AttackPower::ProtectionPiercing,
                                leave_death_note: true,
                            },
                        ],
                    )
                }
            },
        }
    }
}

impl Yer {
    /// A new yer gets a star pass for every five players, rounding up.
    pub fn new_state(game: &Game) -> (r: Yer)
        requires
            game.players@.len() < 256,
        ensures
            r.star_passes_remaining == (game.players@.len() + 4) / 5,
            r.old_role == Role::Yer,
    {
        let n = game.num_players();
        Yer { star_passes_remaining: n / 5 + if n % 5 > 0 { 1 } else { 0 }, old_role: Role::Yer }
    }

    pub fn current_fake_role(&self, game: &Game, actor_ref: PlayerReference) -> (r: Role)
        ensures
            r == fake_role(*game, actor_ref, *self),
    {
        match get_role_list_selection(game, ControllerID::role(actor_ref, Role::Yer, 2)) {
            Some(roles) => if roles.len() > 0 {
                roles[0]
            } else {
                self.old_role
            },
            None => self.old_role,
        }
    }

    pub fn on_midnight(&self, game: &Game, actor_ref: PlayerReference, priority: OnMidnightPriority) -> (r: (Yer, Vec<Effect>))
        requires
            game_ok(*game),
            visits_ok(*game),
            valid_player(*game, actor_ref),
        ensures
            (r.0, r.1@) == yer_night(*game, actor_ref, *self, priority),
    {
        let mut out: Vec<Effect> = Vec::new();
        if game.day_number == 1 {
            return (*self, out);
        }
        let convert = match get_boolean_selection(game, ControllerID::role(actor_ref, Role::Yer, 0)) {
            Some(b) => b,
            None => false,
        };
        let v = match first_visit(game, actor_ref) {
            Some(v) => v,
            None => return (*self, out),
        };
        let target = v.target;
        assert(valid_player(*game, target));
        if !convert {
            if priority == OnMidnightPriority::Kill {
                out.push(
                    Effect::Attack {
                        attacker: actor_ref,
                        target,
                        killer: GraveKiller::Role(Role::Yer),
                        power: AttackPower::ArmorPiercing,
                        leave_death_note: true,
                    },
                );
            }
            return (*self, out);
        }
        if priority != OnMidnightPriority::Convert || self.star_passes_remaining == 0 {
            return (*self, out);
        }
        if !AttackPower::ArmorPiercing.can_pierce(game.players[target.index as usize].defense) {
            out.push(Effect::NightMessage { to: actor_ref, message: ChatMessageVariant::YourConvertFailed });
            return (*self, out);
        }
        let passes = self.star_passes_remaining - 1;
        let fake = self.current_fake_role(game, actor_ref);
        out.push(Effect::GraveRole { target: actor_ref, role: fake });
        out.push(Effect::LoyalistOf { player: target, conclusion: GameConclusion::Fiends });
        out.push(
            Effect::ConvertToYer {
                target,
                star_passes_remaining: passes,
                old_role: game.players[target.index as usize].role,
            },
        );
        out.push(
            Effect::Attack {
                attacker: actor_ref,
                target: actor_ref,
                killer: GraveKiller::Role(Role::Yer),
                power: AttackPower::ProtectionPiercing,
                leave_death_note: true,
            },
        );
        (Yer { star_passes_remaining: passes, old_role: self.old_role }, out)
    }

    /// Three controllers: whether to pass the star (grayed out with no pass
    /// left or on the first night), the player to visit (grayed out on the
    /// first night), and the role to pose as, defaulting to the old role.
    pub fn controller_parameters_map(&self, game: &Game, actor_ref: PlayerReference) -> (r: Vec<ControllerParameters>)
        requires
            valid_player(*game, actor_ref),
        ensures
            r@.len() == 3,
            r@[0].id == ControllerID::role(actor_ref, Role::Yer, 0),
            r@[0].available == AvailableAbilitySelection::Boolean,
            r@[0].grayed_out == (self.star_passes_remaining == 0 || game.day_number <= 1),
            r@[0].night_typical,
            r@[1].id == ControllerID::role(actor_ref, Role::Yer, 1),
            r@[1].available == (AvailableAbilitySelection::SinglePlayerTypical {
                can_select_self: false,
                can_select_insiders: true,
            }),
            r@[1].grayed_out == (game.day_number <= 1),
            r@[1].night_typical,
            r@[2].id == ControllerID::role(actor_ref, Role::Yer, 2),
            r@[2].available matches AvailableAbilitySelection::RoleList { available_roles, can_choose_duplicates, max_roles }
                && available_roles@ == game.settings.enabled_roles@ && !can_choose_duplicates && max_roles == Some(1u8),
            r@[2].default_selection matches Some(AbilitySelection::RoleList(d)) && d@ == seq![self.old_role],
            r@[2].grayed_out == (self.star_passes_remaining == 0 || data(*game, actor_ref).ability_deactivated_from_death
                || game.day_number <= 1),
            r@[2].allowed_players@ == seq![actor_ref],
    {
        let pass = ControllerParameters {
            id: ControllerID::role(actor_ref, Role::Yer, 0),
            available: AvailableAbilitySelection::Boolean,
            grayed_out: self.star_passes_remaining == 0 || game.day_number <= 1,
            night_typical: true,
            reset_on_phase_start: None,
            dont_save: false,
            default_selection: None,
            allowed_players: vec![actor_ref],
        };
        let visit = ControllerParameters {
            id: ControllerID::role(actor_ref, Role::Yer, 1),
            available: AvailableAbilitySelection::SinglePlayerTypical {
                can_select_self: false,
                can_select_insiders: true,
            },
            grayed_out: game.day_number <= 1,
            night_typical: true,
            reset_on_phase_start: None,
            dont_save: false,
            default_selection: None,
            allowed_players: vec![actor_ref],
        };
        let enabled = game.settings.enabled_roles.as_vec();
        let mut roles: Vec<Role> = Vec::new();
        let mut i: usize = 0;
        while i < enabled.len()
            invariant
                i <= enabled@.len(),
                roles@ =~= enabled@.take(i as int),
            decreases enabled@.len() - i,
        {
            roles.push(enabled[i]);
            i = i + 1;
        }
        proof {
            assert(enabled@.take(i as int) =~= enabled@);
        }
        let pose = ControllerParameters {
            id: ControllerID::role(actor_ref, Role::Yer, 2),
            available: AvailableAbilitySelection::RoleList {
                available_roles: roles,
                can_choose_duplicates: false,
                max_roles: Some(1),
            },
            grayed_out: self.star_passes_remaining == 0
                || game.players[actor_ref.index as usize].ability_deactivated_from_death || game.day_number <= 1,
            night_typical: false,
            reset_on_phase_start: None,
            dont_save: false,
            default_selection: Some(AbilitySelection::RoleList(vec![self.old_role])),
            allowed_players: vec![actor_ref],
        };
        vec![pass, visit, pose]
    }

    /// The yer visits the player of its second controller, as an attack.
    pub fn convert_selection_to_visits(&self, game: &Game, actor_ref: PlayerReference) -> (r: Vec<Visit>)
        ensures
            r@ == selection_visits(*game, actor_ref, Role::Yer, 1, true),
    {
        convert_controller_selection_to_visits(game, actor_ref, Role::Yer, 1, true)
    }
}

} // verus!

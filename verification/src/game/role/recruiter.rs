//! The recruiter: recruits players into the mafia, or kills to earn more
//! recruits.

use vstd::prelude::*;
use crate::game::{Game, data, valid_player, game_ok, filtered, filter_players};
use crate::game::player::PlayerReference;
use crate::game::effect::{Effect, GraveKiller};
use crate::game::attack_power::{AttackPower, pierces};
use crate::game::game_conclusion::GameConclusion;
use crate::game::insider_group::InsiderGroupID;
use crate::game::role_list::{
    RoleSet, RoleOutline, RoleOutlineOption, RoleOutlineOptionRoles, RoleOutlineOptionWinCondition,
    RoleOutlineOptionInsiderGroups, role_set_roles, generatable, outline_assignments, options_new, options_as_vec,
    AssignmentView,
};
use crate::game::visit::Visit;
use crate::game::ability_input::{
    ControllerID, ControllerParameters, AvailableAbilitySelection, saved_integer, get_integer_selection,
};
use crate::random::choose_random_from_iter;
use super::{Role, OnMidnightPriority};
use super::common_role::{spec_first_visit, first_visit, visits_ok, selection_visits, convert_controller_selection_to_visits};

verus! {

#[derive(Clone, Copy, Debug, PartialEq, Eq, Structural)]
pub struct Recruiter {
    pub recruits_remaining: u8,
}

impl Default for Recruiter {
    fn default() -> (r: Self)
        ensures
            r.recruits_remaining == 3,
    {
        Recruiter { recruits_remaining: 3 }
    }
}

/// The recruiter attacks unless its choice says to recruit (1).
pub open spec fn spec_choose_attack(game: Game, actor: PlayerReference) -> bool {
    match saved_integer(game, ControllerID::role(actor, Role::Recruiter, 1)) {
        Some(x) => x == 0,
        None => true,
    }
}

/// What the recruiter's ability does to `target`: an attack, or a recruit
/// when a basic attack would get through the target's defense. Whether it
/// worked is known only once the game has applied it.
pub open spec fn spec_night_ability(game: Game, actor: PlayerReference, target: PlayerReference) -> Seq<Effect> {
    if spec_choose_attack(game, actor) {
        seq![
            Effect::Attack {
                attacker: actor,
                target,
                killer: GraveKiller::RoleSet(RoleSet::Mafia),
                power: AttackPower::Basic,
                leave_death_note: false,
            },
        ]
    } else if pierces(AttackPower::Basic, data(game, target).defense) {
        seq![Effect::Recruit { target }]
    } else {
        Seq::empty()
    }
}

/// The recruiter's night: attacking works only after the first night, and
/// recruiting only with a recruit left. At the kill step it uses its ability
/// on the player it visits.
pub open spec fn recruiter_night(game: Game, actor: PlayerReference, state: Recruiter, priority: OnMidnightPriority) -> Seq<Effect> {
    let attack = spec_choose_attack(game, actor);
    if (attack && game.day_number <= 1) || (!attack && state.recruits_remaining == 0) || priority
        != OnMidnightPriority::Kill {
        Seq::empty()
    } else {
        match spec_first_visit(game, actor) {
            Some(v) => spec_night_ability(game, actor, v.target),
            None => Seq::empty(),
        }
    }
}

/// The recruits left once the night's ability is done: a kill earns one (at
/// most 255), a recruit that joined spends one, and anything else changes
/// nothing.
pub open spec fn recruits_after(state: Recruiter, attack: bool, succeeded: bool) -> Recruiter {
    if !succeeded {
        state
    } else if attack {
        Recruiter { recruits_remaining: if state.recruits_remaining < 255 { (state.recruits_remaining + 1) as u8 } else { 255 } }
    } else {
        Recruiter { recruits_remaining: if state.recruits_remaining > 0 { (state.recruits_remaining - 1) as u8 } else { 0 } }
    }
}

/// The players other than `actor` holding a mafia role, in index order.
pub open spec fn mafia_role_holders(game: Game, actor: PlayerReference) -> Seq<PlayerReference> {
    filtered(game, (None, seq![actor], None)).filter(|p: PlayerReference| holds_mafia_role(game, p))
}

pub open spec fn holds_mafia_role(game: Game, p: PlayerReference) -> bool {
    role_set_roles(RoleSet::Mafia).contains(data(game, p).role)
}

/// The outline of one option drawing from the common town roles.
pub open spec fn town_common_outline() -> Seq<(RoleOutlineOptionRoles, Option<Seq<GameConclusion>>, Option<Seq<InsiderGroupID>>)> {
    seq![(RoleOutlineOptionRoles::RoleSet { role_set: RoleSet::TownCommon }, None::<Seq<GameConclusion>>, None::<Seq<InsiderGroupID>>)]
}

/// Whether the role list has an outline of exactly the recruiter.
pub open spec fn has_exact_recruiter(game: Game) -> bool {
    exists|i: int|
        0 <= i < game.settings.role_list@.len() && #[trigger] game.settings.role_list@[i] == seq![
            (RoleOutlineOptionRoles::Role { role: Role::Recruiter }, None::<Seq<GameConclusion>>, None::<Seq<InsiderGroupID>>),
        ]
}

fn is_exact_recruiter(o: &RoleOutline) -> (r: bool)
    ensures
        r == (o@ == seq![
            (RoleOutlineOptionRoles::Role { role: Role::Recruiter }, None::<Seq<GameConclusion>>, None::<Seq<InsiderGroupID>>),
        ]),
{
    let options = options_as_vec(&o.options);
    if options.len() != 1 {
        proof {
            assert(o@.len() == options@.len());
        }
        return false;
    }
    let first = &options[0];
    let r = match first.roles {
        RoleOutlineOptionRoles::Role { role } => role == Role::Recruiter,
        _ => false,
    } && first.win_condition.is_default() && first.insider_groups.is_default();
    proof {
        assert(o@[0] == first@);
        if r {
            assert(o@ =~= seq![
                (RoleOutlineOptionRoles::Role { role: Role::Recruiter }, None::<Seq<GameConclusion>>, None::<Seq<InsiderGroupID>>),
            ]);
        }
    }
    r
}

impl Recruiter {
    /// A new recruiter gets a recruit for every five players, rounding up.
    pub fn new_state(game: &Game) -> (r: Recruiter)
        requires
            game.players@.len() < 256,
        ensures
            r.recruits_remaining == (game.players@.len() + 4) / 5,
    {
        let n = game.num_players();
        Recruiter { recruits_remaining: n / 5 + if n % 5 > 0 { 1 } else { 0 } }
    }

    pub fn choose_attack(game: &Game, actor_ref: PlayerReference) -> (r: bool)
        ensures
            r == spec_choose_attack(*game, actor_ref),
    {
        match get_integer_selection(game, ControllerID::role(actor_ref, Role::Recruiter, 1)) {
            Some(x) => x == 0,
            None => true,
        }
    }

    pub fn night_ability(&self, game: &Game, actor_ref: PlayerReference, target_ref: PlayerReference) -> (r: Vec<Effect>)
        requires
            valid_player(*game, target_ref),
        ensures
            r@ == spec_night_ability(*game, actor_ref, target_ref),
    {
        if Recruiter::choose_attack(game, actor_ref) {
            vec![Effect::Attack {
                attacker: actor_ref,
                target: target_ref,
                killer: GraveKiller::RoleSet(RoleSet::Mafia),
                power: AttackPower::Basic,
                leave_death_note: false,
            }]
        } else if AttackPower::Basic.can_pierce(game.players[target_ref.index as usize].defense) {
            vec![Effect::Recruit { target: target_ref }]
        } else {
            Vec::new()
        }
    }

    pub fn on_midnight(&self, game: &Game, actor_ref: PlayerReference, priority: OnMidnightPriority) -> (r: Vec<Effect>)
        requires
            visits_ok(*game),
            valid_player(*game, actor_ref),
        ensures
            r@ == recruiter_night(*game, actor_ref, *self, priority),
    {
        let attack = Recruiter::choose_attack(game, actor_ref);
        if (attack && game.day_number <= 1) || (!attack && self.recruits_remaining == 0) || priority
            != OnMidnightPriority::Kill {
            return Vec::new();
        }
        match first_visit(game, actor_ref) {
            Some(v) => {
                assert(valid_player(*game, crate::game::role::common_role::visits_of(*game, actor_ref)[0].target));
                self.night_ability(game, actor_ref, v.target)
            },
            None => Vec::new(),
        }
    }

    /// The recruiter once the game knows whether tonight's ability worked
    /// (the attack killed, or the recruit joined).
    pub fn after_night_ability(&self, game: &Game, actor_ref: PlayerReference, succeeded: bool) -> (r: Recruiter)
        ensures
            r == recruits_after(*self, spec_choose_attack(*game, actor_ref), succeeded),
    {
        if !succeeded {
            *self
        } else if Recruiter::choose_attack(game, actor_ref) {
            Recruiter {
                recruits_remaining: if self.recruits_remaining < 255 { self.recruits_remaining + 1 } else { 255 },
            }
        } else {
            Recruiter { recruits_remaining: if self.recruits_remaining > 0 { self.recruits_remaining - 1 } else { 0 } }
        }
    }

    /// The visit controller (another player, outsiders only, at night,
    /// grayed out when the chosen ability cannot be used) and the choice
    /// between attacking (0) and recruiting (1, only with a recruit left).
    pub fn controller_parameters_map(&self, game: &Game, actor_ref: PlayerReference) -> (r: Vec<ControllerParameters>)
        requires
            valid_player(*game, actor_ref),
        ensures
            r@.len() == 2,
            r@[0].id == ControllerID::role(actor_ref, Role::Recruiter, 0),
            r@[0].available == (AvailableAbilitySelection::SinglePlayerTypical {
                can_select_self: false,
                can_select_insiders: false,
            }),
            r@[0].night_typical,
            r@[0].grayed_out == ((!spec_choose_attack(*game, actor_ref) && self.recruits_remaining == 0) || (
            spec_choose_attack(*game, actor_ref) && game.day_number == 1)),
            r@[1].id == ControllerID::role(actor_ref, Role::Recruiter, 1),
            r@[1].available == (AvailableAbilitySelection::Integer {
                min: 0,
                max: if self.recruits_remaining > 0 { 1 } else { 0 },
            }),
            r@[1].grayed_out == data(*game, actor_ref).ability_deactivated_from_death,
            r@[1].allowed_players@ == seq![actor_ref],
    {
        let attack = Recruiter::choose_attack(game, actor_ref);
        let visit = ControllerParameters {
            id: ControllerID::role(actor_ref, Role::Recruiter, 0),
            available: AvailableAbilitySelection::SinglePlayerTypical {
                can_select_self: false,
                can_select_insiders: false,
            },
            grayed_out: (!attack && self.recruits_remaining == 0) || (attack && game.day_number == 1),
            night_typical: true,
            reset_on_phase_start: None,
            dont_save: false,
            default_selection: None,
            allowed_players: vec![actor_ref],
        };
        let choice = ControllerParameters {
            id: ControllerID::role(actor_ref, Role::Recruiter, 1),
            available: AvailableAbilitySelection::Integer {
                min: 0,
                max: if self.recruits_remaining > 0 { 1 } else { 0 },
            },
            grayed_out: game.players[actor_ref.index as usize].ability_deactivated_from_death,
            night_typical: false,
            reset_on_phase_start: None,
            dont_save: false,
            default_selection: None,
            allowed_players: vec![actor_ref],
        };
        vec![visit, choice]
    }

    pub fn convert_selection_to_visits(&self, game: &Game, actor_ref: PlayerReference) -> (r: Vec<Visit>)
        ensures
            r@ == selection_visits(*game, actor_ref, Role::Recruiter, 0, false),
    {
        convert_controller_selection_to_visits(game, actor_ref, Role::Recruiter, 0, false)
    }

    /// Before roles are handed out: unless the role list names the recruiter
    /// exactly, a random other player with a mafia role, if any, is turned
    /// into a random common town role that can still be drawn (leaving the
    /// mafia and winning with the town), when there is one.
    pub fn before_initial_role_creation(&self, game: &Game, actor_ref: PlayerReference) -> (r: Vec<Effect>)
        requires
            game_ok(*game),
        ensures
            has_exact_recruiter(*game) ==> r@.len() == 0,
            mafia_role_holders(*game, actor_ref).len() == 0 ==> r@.len() == 0,
            generatable(
                outline_assignments(town_common_outline()),
                game.settings.enabled_roles@,
                crate::game::player_roles(*game),
            ).len() == 0 ==> r@.len() == 0,
            !has_exact_recruiter(*game) && mafia_role_holders(*game, actor_ref).len() > 0 && generatable(
                outline_assignments(town_common_outline()),
                game.settings.enabled_roles@,
                crate::game::player_roles(*game),
            ).len() > 0 ==> exists|p: PlayerReference, a: AssignmentView|
                mafia_role_holders(*game, actor_ref).contains(p) && generatable(
                    outline_assignments(town_common_outline()),
                    game.settings.enabled_roles@,
                    crate::game::player_roles(*game),
                ).contains(a) && r@ == seq![
                    Effect::LeaveInsiderGroup { player: p, group: InsiderGroupID::Mafia },
                    Effect::LoyalistOf { player: p, conclusion: GameConclusion::Town },
                    Effect::SwitchRole { target: p, role: a.0 },
                ],
    {
        let mut out: Vec<Effect> = Vec::new();
        let list = &game.settings.role_list.0;
        let mut i: usize = 0;
        while i < list.len()
            invariant
                i <= list@.len(),
                out@.len() == 0,
                list@ == game.settings.role_list.0@,
                forall|j: int| 0 <= j < i ==> #[trigger] game.settings.role_list@[j] != seq![
                    (RoleOutlineOptionRoles::Role { role: Role::Recruiter }, None::<Seq<GameConclusion>>, None::<Seq<InsiderGroupID>>),
                ],
            decreases list@.len() - i,
        {
            if is_exact_recruiter(&list[i]) {
                assert(game.settings.role_list@[i as int] == list@[i as int]@);
                return out;
            }
            i = i + 1;
        }
        let mafia_roles = RoleSet::Mafia.get_roles();
        let exclude = vec![actor_ref];
        let others = filter_players(game, None, &exclude, None);
        proof {
            assert(exclude@ =~= seq![actor_ref]);
            assert forall|j: int| 0 <= j < others@.len() implies valid_player(*game, #[trigger] others@[j]) by {
                crate::game::lemma_filtered_contains(*game, (None, seq![actor_ref], None), game.players@.len() as int, others@[j]);
            }
        }
        let ghost pred = |p: PlayerReference| holds_mafia_role(*game, p);
        let mut holders: Vec<PlayerReference> = Vec::new();
        let mut k: usize = 0;
        while k < others.len()
            invariant
                k <= others@.len(),
                mafia_roles@ == role_set_roles(RoleSet::Mafia),
                forall|j: int| 0 <= j < others@.len() ==> valid_player(*game, #[trigger] others@[j]),
                pred == (|p: PlayerReference| holds_mafia_role(*game, p)),
                holders@ == others@.take(k as int).filter(pred),
            decreases others@.len() - k,
        {
            let p = others[k];
            if mafia_roles.contains(&game.players[p.index as usize].role) {
                holders.push(p);
            }
            proof {
                reveal_with_fuel(Seq::filter, 1);
                let t1 = others@.take(k as int + 1);
                assert(t1.drop_last() =~= others@.take(k as int));
                assert(t1.last() == p);
            }
            k = k + 1;
        }
        proof {
            assert(others@.take(k as int) =~= others@);
            assert(holders@ == mafia_role_holders(*game, actor_ref));
        }
        let chosen = match choose_random_from_iter(holders) {
            Some(p) => p,
            None => return out,
        };
        let outline = RoleOutline {
            options: options_new(RoleOutlineOption {
                win_condition: RoleOutlineOptionWinCondition::default(),
                insider_groups: RoleOutlineOptionInsiderGroups::default(),
                roles: RoleOutlineOptionRoles::RoleSet { role_set: RoleSet::TownCommon },
            }),
        };
        proof {
            assert(outline@ =~= town_common_outline());
        }
        let taken = crate::game::all_player_roles(game);
        match outline.get_random_role_assignments(&game.settings.enabled_roles, taken.as_slice()) {
            Some(a) => {
                out.push(Effect::LeaveInsiderGroup { player: chosen, group: InsiderGroupID::Mafia });
                out.push(Effect::LoyalistOf { player: chosen, conclusion: GameConclusion::Town });
                out.push(Effect::SwitchRole { target: chosen, role: a.role });
                proof {
                    assert(out@ =~= seq![
                        Effect::LeaveInsiderGroup { player: chosen, group: InsiderGroupID::Mafia },
                        Effect::LoyalistOf { player: chosen, conclusion: GameConclusion::Town },
                        Effect::SwitchRole { target: chosen, role: a@.0 },
                    ]);
                }
                out
            },
            None => out,
        }
    }
}

} // verus!

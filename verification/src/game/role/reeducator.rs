//! The reeducator: a mafia member who turns the role of a fellow member, or
//! once, at the cost of its own life, converts an outsider to the mafia.

use vstd::prelude::*;
use crate::game::{Game, data, valid_player, game_ok, alive, filtered};
use crate::game::player::PlayerReference;
use crate::game::effect::{Effect, GraveKiller};
use crate::game::attack_power::AttackPower;
use crate::game::game_conclusion::GameConclusion;
use crate::game::insider_group::InsiderGroupID;
use crate::game::role_list::RoleSet;
use crate::game::visit::Visit;
use crate::game::ability_input::{
    ControllerID, ControllerParameters, AvailableAbilitySelection, AbilitySelection,
    saved_role_option, get_role_option_selection,
};
use crate::random::choose_random_from_iter;
use super::{Role, OnMidnightPriority};
use super::common_role::{
    visits_of, spec_first_visit, first_visit, enabled_candidates, enabled_roles_of,
    selection_visits, convert_controller_selection_to_visits,
};

verus! {

#[derive(Clone, Copy, Debug, PartialEq, Eq, Structural)]
pub struct Reeducator {
    pub convert_charges_remaining: bool,
}

impl Default for Reeducator {
    fn default() -> (r: Self)
        ensures
            r.convert_charges_remaining,
    {
        Reeducator { convert_charges_remaining: true }
    }
}

/// Whether `a` and `b` both belong to the revealed mafia.
pub open spec fn same_revealed_group(game: Game, a: PlayerReference, b: PlayerReference) -> bool {
    valid_player(game, a) && valid_player(game, b) && data(game, a).in_mafia && data(game, b).in_mafia
}

/// The roles the reeducator can turn a player into.
pub open spec fn reeducation_roles(game: Game) -> Seq<Role> {
    enabled_candidates(game, RoleSet::MafiaSupport, Role::Reeducator)
}

/// The mafia members among the first `n` players, in index order.
pub open spec fn mafia_upto(game: Game, n: int) -> Seq<PlayerReference>
    decreases n,
{
    if n <= 0 {
        Seq::empty()
    } else {
        let p = PlayerReference { index: (n - 1) as u8 };
        if data(game, p).in_mafia {
            mafia_upto(game, n - 1).push(p)
        } else {
            mafia_upto(game, n - 1)
        }
    }
}

/// The reeducator's visits to outsiders become attacks.
pub open spec fn outsider_marks(game: Game, actor: PlayerReference, vs: Seq<Visit>) -> Seq<Effect>
    decreases vs.len(),
{
    if vs.len() == 0 {
        Seq::empty()
    } else {
        let before = outsider_marks(game, actor, vs.drop_last());
        if !same_revealed_group(game, actor, vs.last().target) {
            before.push(Effect::MarkAttack { visitor: actor, target: vs.last().target })
        } else {
            before
        }
    }
}

/// The roleblock step: with its charge left after the first night, the
/// reeducator's visits to outsiders become attacks, and if there is one,
/// every mafia member is blocked for the night.
pub open spec fn reeducator_roleblock(game: Game, actor: PlayerReference, state: Reeducator) -> Seq<Effect> {
    if !state.convert_charges_remaining || game.day_number <= 1 {
        Seq::empty()
    } else {
        let marks = outsider_marks(game, actor, visits_of(game, actor));
        if marks.len() > 0 {
            marks + mafia_upto(game, game.players@.len() as int).map_values(
                |m: PlayerReference| Effect::Roleblock { target: m },
            )
        } else {
            marks
        }
    }
}

/// The convert step once the new role is known: a plain visit turns its
/// target's role; an attacking one, with the charge left after the first
/// night, costs the reeducator its life and brings the target into the mafia
/// with that role.
pub open spec fn reeducator_convert(game: Game, actor: PlayerReference, state: Reeducator, role: Role) -> (Reeducator, Seq<Effect>) {
    match spec_first_visit(game, actor) {
        Some(v) => if v.attack {
            if state.convert_charges_remaining && game.day_number > 1 {
                (
                    Reeducator { convert_charges_remaining: false },
                    seq![
                        Effect::Attack {
                            attacker: actor,
                            target: actor,
                            killer: GraveKiller::RoleSet(RoleSet::Mafia),
                            power: AttackPower::ProtectionPiercing,
                            leave_death_note: false,
                        },
                        Effect::JoinInsiderGroup { player: v.target, group: InsiderGroupID::Mafia },
                        Effect::LoyalistOf { player: v.target, conclusion: GameConclusion::Mafia },
                        Effect::ConvertTonight { target: v.target, role },
                    ],
                )
            } else {
                (state, Seq::empty())
            }
        } else {
            (state, seq![Effect::ConvertTonight { target: v.target, role }])
        },
        None => (state, Seq::empty()),
    }
}

fn in_same_group(game: &Game, a: PlayerReference, b: PlayerReference) -> (r: bool)
    ensures
        r == same_revealed_group(*game, a, b),
{
    (a.index as usize) < game.players.len() && (b.index as usize) < game.players.len()
        && game.players[a.index as usize].in_mafia && game.players[b.index as usize].in_mafia
}

fn mafia_members(game: &Game) -> (r: Vec<PlayerReference>)
    requires
        game_ok(*game),
    ensures
        r@ == mafia_upto(*game, game.players@.len() as int),
{
    let mut out: Vec<PlayerReference> = Vec::new();
    let mut i: usize = 0;
    while i < game.players.len()
        invariant
            i <= game.players@.len(),
            game_ok(*game),
            out@ == mafia_upto(*game, i as int),
        decreases game.players@.len() - i,
    {
        if game.players[i].in_mafia {
            out.push(PlayerReference { index: i as u8 });
        }
        i = i + 1;
    }
    out
}

impl Reeducator {
    /// A random role the reeducator could turn a player into, or `None` when
    /// the game enabled none.
    pub fn default_role(game: &Game) -> (r: Option<Role>)
        ensures
            r is None <==> reeducation_roles(*game).len() == 0,
            r matches Some(x) ==> reeducation_roles(*game).contains(x),
    {
        choose_random_from_iter(enabled_roles_of(game, RoleSet::MafiaSupport, Role::Reeducator))
    }

    /// The convert step with the new role decided.
    pub fn convert(&self, game: &Game, actor_ref: PlayerReference, role: Role) -> (r: (Reeducator, Vec<Effect>))
        requires
            valid_player(*game, actor_ref),
        ensures
            (r.0, r.1@) == reeducator_convert(*game, actor_ref, *self, role),
    {
        let mut out: Vec<Effect> = Vec::new();
        let v = match first_visit(game, actor_ref) {
            Some(v) => v,
            None => return (*self, out),
        };
        if v.attack {
            if self.convert_charges_remaining && game.day_number > 1 {
                out.push(
                    Effect::Attack {
                        attacker: actor_ref,
                        target: actor_ref,
                        killer: GraveKiller::RoleSet(RoleSet::Mafia),
                        power: AttackPower::ProtectionPiercing,
                        leave_death_note: false,
                    },
                );
                out.push(Effect::JoinInsiderGroup { player: v.target, group: InsiderGroupID::Mafia });
                out.push(Effect::LoyalistOf { player: v.target, conclusion: GameConclusion::Mafia });
                out.push(Effect::ConvertTonight { target: v.target, role });
                (Reeducator { convert_charges_remaining: false }, out)
            } else {
                (*self, out)
            }
        } else {
            out.push(Effect::ConvertTonight { target: v.target, role });
            (*self, out)
        }
    }

    /// The reeducator's night. The convert step uses the role saved in its
    /// second controller, else a random one it could pick; with none to
    /// pick it does nothing.
    pub fn on_midnight(&self, game: &Game, actor_ref: PlayerReference, priority: OnMidnightPriority) -> (r: (
        Reeducator,
        Vec<Effect>,
    ))
        requires
            game_ok(*game),
            valid_player(*game, actor_ref),
        ensures
            priority == OnMidnightPriority::Roleblock ==> r.0 == *self && r.1@ == reeducator_roleblock(
                *game,
                actor_ref,
                *self,
            ),
            priority == OnMidnightPriority::Convert ==> match saved_role_option(
                *game,
                ControllerID::role(actor_ref, Role::Reeducator, 1),
            ) {
                Some(role) => (r.0, r.1@) == reeducator_convert(*game, actor_ref, *self, role),
                None => if reeducation_roles(*game).len() == 0 {
                    r.0 == *self && r.1@.len() == 0
                } else {
                    exists|role: Role|
                        reeducation_roles(*game).contains(role) && (r.0, r.1@) == reeducator_convert(
                            *game,
                            actor_ref,
                            *self,
                            role,
                        )
                },
            },
            priority != OnMidnightPriority::Roleblock && priority != OnMidnightPriority::Convert ==> r.0
                == *self && r.1@.len() == 0,
    {
        let mut out: Vec<Effect> = Vec::new();
        match priority {
            OnMidnightPriority::Roleblock => {
                if !self.convert_charges_remaining || game.day_number <= 1 {
                    return (*self, out);
                }
                let vs = &game.players[actor_ref.index as usize].night_visits;
                let mut i: usize = 0;
                while i < vs.len()
                    invariant
                        i <= vs@.len(),
                        vs@ == visits_of(*game, actor_ref),
                        out@ == outsider_marks(*game, actor_ref, vs@.take(i as int)),
                    decreases vs@.len() - i,
                {
                    proof {
                        assert(vs@.take(i as int + 1).drop_last() =~= vs@.take(i as int));
                    }
                    let t = vs[i].target;
                    if !in_same_group(game, actor_ref, t) {
                        out.push(Effect::MarkAttack { visitor: actor_ref, target: t });
                    }
                    i = i + 1;
                }
                proof {
                    assert(vs@.take(i as int) =~= vs@);
                }
                if out.len() > 0 {
                    let ms = mafia_members(game);
                    let ghost start = out@;
                    let mut j: usize = 0;
                    while j < ms.len()
                        invariant
                            j <= ms@.len(),
                            out@ =~= start + ms@.map_values(|m: PlayerReference| Effect::Roleblock { target: m }).take(
                                j as int,
                            ),
                        decreases ms@.len() - j,
                    {
                        out.push(Effect::Roleblock { target: ms[j] });
                        j = j + 1;
                    }
                    proof {
                        assert(ms@.map_values(|m: PlayerReference| Effect::Roleblock { target: m }).take(j as int)
                            =~= ms@.map_values(|m: PlayerReference| Effect::Roleblock { target: m }));
                    }
                }
                (*self, out)
            },
            OnMidnightPriority::Convert => {
                let role = match get_role_option_selection(game, ControllerID::role(actor_ref, Role::Reeducator, 1)) {
                    Some(role) => role,
                    None => match Reeducator::default_role(game) {
                        Some(role) => role,
                        None => return (*self, out),
                    },
                };
                self.convert(game, actor_ref, role)
            },
            _ => (*self, out),
        }
    }

    /// Two controllers: a living player to visit (a fellow mafia member, or
    /// anyone once the charge can be used), and the role to give, defaulting
    /// to a random one.
    pub fn controller_parameters_map(&self, game: &Game, actor_ref: PlayerReference) -> (r: Vec<ControllerParameters>)
        requires
            game_ok(*game),
        ensures
            r@.len() == 2,
            r@[0].id == ControllerID::role(actor_ref, Role::Reeducator, 0),
            r@[0].available matches AvailableAbilitySelection::PlayerList {
                available_players,
                can_choose_duplicates,
                max_players,
            } && available_players@ == filtered(*game, (Some(true), Seq::empty(), None)).filter(
                |p: PlayerReference|
                    same_revealed_group(*game, actor_ref, p) || (game.day_number > 1
                        && self.convert_charges_remaining),
            ) && !can_choose_duplicates && max_players == Some(1u8),
            r@[0].night_typical,
            r@[1].id == ControllerID::role(actor_ref, Role::Reeducator, 1),
            r@[1].available matches AvailableAbilitySelection::RoleOption { available_roles }
                && available_roles@ == reeducation_roles(*game).map_values(|x: Role| Some(x)),
            r@[1].default_selection matches Some(AbilitySelection::RoleOption(d)) && (d is None
                <==> reeducation_roles(*game).len() == 0) && (d matches Some(x) ==> reeducation_roles(
                *game,
            ).contains(x)),
            r@[1].allowed_players@ == seq![actor_ref],
    {
        let living = crate::game::filter_players(game, Some(true), &Vec::new(), None);
        proof {
            assert forall|j: int| 0 <= j < living@.len() implies valid_player(*game, #[trigger] living@[j]) by {
                crate::game::lemma_filtered_contains(*game, (Some(true), Seq::empty(), None), game.players@.len() as int, living@[j]);
            }
        }
        let ghost pred = |p: PlayerReference|
            same_revealed_group(*game, actor_ref, p) || (game.day_number > 1 && self.convert_charges_remaining);
        let mut available_players: Vec<PlayerReference> = Vec::new();
        let mut i: usize = 0;
        while i < living.len()
            invariant
                i <= living@.len(),
                pred == (|p: PlayerReference|
                    same_revealed_group(*game, actor_ref, p) || (game.day_number > 1
                        && self.convert_charges_remaining)),
                available_players@ == living@.take(i as int).filter(pred),
            decreases living@.len() - i,
        {
            let p = living[i];
            let ghost prev = available_players@;
            if in_same_group(game, actor_ref, p) || (game.day_number > 1 && self.convert_charges_remaining) {
                available_players.push(p);
            }
            proof {
                reveal_with_fuel(Seq::filter, 1);
                let t1 = living@.take(i as int + 1);
                assert(t1.drop_last() =~= living@.take(i as int));
                assert(t1.last() == p);
            }
            i = i + 1;
        }
        proof {
            assert(living@.take(i as int) =~= living@);
        }
        let roles = enabled_roles_of(game, RoleSet::MafiaSupport, Role::Reeducator);
        let mut available_roles: Vec<Option<Role>> = Vec::new();
        let mut k: usize = 0;
        while k < roles.len()
            invariant
                k <= roles@.len(),
                available_roles@ =~= roles@.map_values(|x: Role| Some(x)).take(k as int),
            decreases roles@.len() - k,
        {
            available_roles.push(Some(roles[k]));
            k = k + 1;
        }
        proof {
            assert(roles@.map_values(|x: Role| Some(x)).take(k as int) =~= roles@.map_values(|x: Role| Some(x)));
        }
        let default_role = Reeducator::default_role(game);
        let visit = ControllerParameters {
            id: ControllerID::role(actor_ref, Role::Reeducator, 0),
            available: AvailableAbilitySelection::PlayerList {
                available_players,
                can_choose_duplicates: false,
                max_players: Some(1),
            },
            grayed_out: false,
            night_typical: true,
            reset_on_phase_start: None,
            dont_save: false,
            default_selection: None,
            allowed_players: vec![actor_ref],
        };
        let pick = ControllerParameters {
            id: ControllerID::role(actor_ref, Role::Reeducator, 1),
            available: AvailableAbilitySelection::RoleOption { available_roles },
            grayed_out: false,
            night_typical: false,
            reset_on_phase_start: None,
            dont_save: false,
            default_selection: Some(AbilitySelection::RoleOption(default_role)),
            allowed_players: vec![actor_ref],
        };
        vec![visit, pick]
    }

    /// The reeducator's visit is not an attack by itself: it becomes one at
    /// the roleblock step when it lands on an outsider.
    pub fn convert_selection_to_visits(&self, game: &Game, actor_ref: PlayerReference) -> (r: Vec<Visit>)
        ensures
            r@ == selection_visits(*game, actor_ref, Role::Reeducator, 0, false),
    {
        convert_controller_selection_to_visits(game, actor_ref, Role::Reeducator, 0, false)
    }
}

} // verus!

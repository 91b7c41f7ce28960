//! The steward: protects every player of up to two roles a night, itself
//! only once.

use vstd::prelude::*;
use crate::game::{Game, data, valid_player, game_ok};
use crate::game::player::PlayerReference;
use crate::game::effect::Effect;
use crate::game::chat::{same_messages, without_guard_messages, remove_guard_messages};
use crate::game::attack_power::DefensePower;
use crate::game::ability_input::{
    ControllerID, ControllerParameters, AvailableAbilitySelection, saved_role_list,
    get_role_list_selection,
};
use super::{Role, OnMidnightPriority, GetClientRoleState};

verus! {

#[derive(Debug)]
pub struct Steward {
    pub self_heals_remaining: u8,
    pub target_healed_refs: Vec<PlayerReference>,
    pub previous_input: Vec<Role>,
}

#[derive(Debug)]
pub struct ClientRoleState {
    pub steward_protects_remaining: u8,
    pub previous_role_chosen: Vec<Role>,
}

impl Default for Steward {
    fn default() -> (r: Self)
        ensures
            r.self_heals_remaining == 1,
            r.target_healed_refs@.len() == 0,
            r.previous_input@.len() == 0,
    {
        Steward { self_heals_remaining: 1, target_healed_refs: Vec::new(), previous_input: Vec::new() }
    }
}

/// The players among the first `n` whose role is `role`, in index order.
pub open spec fn players_with_role_upto(game: Game, role: Role, n: int) -> Seq<PlayerReference>
    decreases n,
{
    if n <= 0 {
        Seq::empty()
    } else {
        let p = PlayerReference { index: (n - 1) as u8 };
        if data(game, p).role == role {
            players_with_role_upto(game, role, n - 1).push(p)
        } else {
            players_with_role_upto(game, role, n - 1)
        }
    }
}

/// The players the steward protects for the roles `roles`: role by role,
/// each role's players in index order.
pub open spec fn protected_players(game: Game, roles: Seq<Role>) -> Seq<PlayerReference>
    decreases roles.len(),
{
    if roles.len() == 0 {
        Seq::empty()
    } else {
        protected_players(game, roles.drop_last()) + players_with_role_upto(
            game,
            roles.last(),
            game.players@.len() as int,
        )
    }
}

/// The first two roles of a choice.
pub open spec fn first_two(roles: Seq<Role>) -> Seq<Role> {
    if roles.len() <= 2 {
        roles
    } else {
        roles.take(2)
    }
}

/// The roles the steward may protect: enabled ones, not those it chose last
/// time, and its own only while it has a self-protection left.
pub open spec fn steward_may_pick(state_heals: u8, previous: Seq<Role>, r: Role) -> bool {
    (state_heals > 0 || r != Role::Steward) && !previous.contains(r)
}

fn players_with_role(game: &Game, role: Role, out: &mut Vec<PlayerReference>, effects: &mut Vec<Effect>)
    requires
        game_ok(*game),
    ensures
        final(out)@ == old(out)@ + players_with_role_upto(*game, role, game.players@.len() as int),
        final(effects)@ == old(effects)@ + players_with_role_upto(*game, role, game.players@.len() as int).map_values(
            |p: PlayerReference| Effect::Defend { target: p, power: DefensePower::Protected },
        ),
{
    let ghost out0 = old(out)@;
    let ghost eff0 = old(effects)@;
    let mut i: usize = 0;
    while i < game.players.len()
        invariant
            i <= game.players@.len(),
            game_ok(*game),
            out@ == out0 + players_with_role_upto(*game, role, i as int),
            effects@ == eff0 + players_with_role_upto(*game, role, i as int).map_values(
                |p: PlayerReference| Effect::Defend { target: p, power: DefensePower::Protected },
            ),
        decreases game.players@.len() - i,
    {
        if game.players[i].role == role {
            let p = PlayerReference { index: i as u8 };
            out.push(p);
            effects.push(Effect::Defend { target: p, power: DefensePower::Protected });
            proof {
                assert(out@ =~= out0 + players_with_role_upto(*game, role, i as int + 1));
                assert(effects@ =~= eff0 + players_with_role_upto(*game, role, i as int + 1).map_values(
                    |p: PlayerReference| Effect::Defend { target: p, power: DefensePower::Protected },
                ));
            }
        }
        i = i + 1;
    }
}

impl Steward {
    /// The steward's night, unless it is blocked or its ability is gone. At
    /// the heal step it protects every player of the roles it chose,
    /// remembering them and its choice (its first two roles), and spends a
    /// self-protection when it chose its own role; once the attacks are done
    /// it removes the protection messages from the night reports of those
    /// protected who were attacked.
    pub fn on_midnight(self, game: &Game, actor_ref: PlayerReference, priority: OnMidnightPriority) -> (r: (
        Steward,
        Vec<Effect>,
    ))
        requires
            game_ok(*game),
            valid_player(*game, actor_ref),
        ensures
            ({
                let blocked = data(*game, actor_ref).night_blocked || data(*game, actor_ref).ability_deactivated_from_death;
                let roles = saved_role_list(*game, ControllerID::role(actor_ref, Role::Steward, 0));
                if blocked || !(priority == OnMidnightPriority::Heal || priority
                    == OnMidnightPriority::DeleteMessages) || (priority == OnMidnightPriority::Heal
                    && roles is None) {
                    r.0.self_heals_remaining == self.self_heals_remaining && r.0.target_healed_refs@
                        == self.target_healed_refs@ && r.0.previous_input@ == self.previous_input@
                        && r.1@.len() == 0
                } else if priority == OnMidnightPriority::Heal {
                    let roles = roles->0;
                    &&& r.0.target_healed_refs@ == protected_players(*game, roles)
                    &&& r.1@ == protected_players(*game, roles).map_values(
                        |p: PlayerReference| Effect::Defend { target: p, power: DefensePower::Protected },
                    )
                    &&& r.0.self_heals_remaining == if roles.contains(Role::Steward)
                        && self.self_heals_remaining > 0 {
                        (self.self_heals_remaining - 1) as u8
                    } else {
                        self.self_heals_remaining
                    }
                    &&& r.0.previous_input@ == first_two(roles)
                } else {
                    &&& r.0.self_heals_remaining == self.self_heals_remaining
                    &&& r.0.target_healed_refs@ == self.target_healed_refs@
                    &&& r.0.previous_input@ == self.previous_input@
                    &&& r.1@.len() == self.target_healed_refs@.filter(|p: PlayerReference| attacked(*game, p)).len()
                    &&& forall|i: int| 0 <= i < r.1@.len() ==> clears_guard_messages(
                        *game,
                        #[trigger] r.1@[i],
                        self.target_healed_refs@.filter(|p: PlayerReference| attacked(*game, p))[i],
                    )
                }
            }),
    {
        let mut out: Vec<Effect> = Vec::new();
        let d = &game.players[actor_ref.index as usize];
        if d.night_blocked || d.ability_deactivated_from_death {
            return (self, out);
        }
        match priority {
            OnMidnightPriority::Heal => {
                let roles = match get_role_list_selection(game, ControllerID::role(actor_ref, Role::Steward, 0)) {
                    Some(roles) => roles,
                    None => return (self, out),
                };
                let mut healed: Vec<PlayerReference> = Vec::new();
                let mut has_self = false;
                let mut i: usize = 0;
                while i < roles.len()
                    invariant
                        i <= roles@.len(),
                        game_ok(*game),
                        healed@ == protected_players(*game, roles@.take(i as int)),
                        out@ == protected_players(*game, roles@.take(i as int)).map_values(
                            |p: PlayerReference| Effect::Defend { target: p, power: DefensePower::Protected },
                        ),
                        has_self == roles@.take(i as int).contains(Role::Steward),
                    decreases roles@.len() - i,
                {
                    proof {
                        assert(roles@.take(i as int + 1).drop_last() =~= roles@.take(i as int));
                    }
                    let ghost before = protected_players(*game, roles@.take(i as int));
                    players_with_role(game, roles[i], &mut healed, &mut out);
                    if roles[i] == Role::Steward {
                        has_self = true;
                    }
                    proof {
                        let t1 = roles@.take(i as int + 1);
                        assert(t1.last() == roles@[i as int]);
                        assert(protected_players(*game, t1) == before + players_with_role_upto(
                            *game,
                            roles@[i as int],
                            game.players@.len() as int,
                        ));
                        assert(out@ =~= protected_players(*game, t1).map_values(
                            |p: PlayerReference| Effect::Defend { target: p, power: DefensePower::Protected },
                        ));
                        assert(t1 =~= roles@.take(i as int).push(roles@[i as int]));
                    }
                    i = i + 1;
                }
                proof {
                    assert(roles@.take(i as int) =~= roles@);
                }
                let heals = if has_self && self.self_heals_remaining > 0 {
                    self.self_heals_remaining - 1
                } else {
                    self.self_heals_remaining
                };
                let mut previous: Vec<Role> = Vec::new();
                if roles.len() > 0 {
                    previous.push(roles[0]);
                }
                if roles.len() > 1 {
                    previous.push(roles[1]);
                }
                proof {
                    if roles@.len() <= 2 {
                        assert(previous@ =~= roles@);
                    } else {
                        assert(previous@ =~= roles@.take(2));
                    }
                }
                (Steward { self_heals_remaining: heals, target_healed_refs: healed, previous_input: previous }, out)
            },
            OnMidnightPriority::DeleteMessages => {
                let ghost pred = |p: PlayerReference| attacked(*game, p);
                let ghost kept: Seq<PlayerReference> = Seq::empty();
                let mut i: usize = 0;
                while i < self.target_healed_refs.len()
                    invariant
                        i <= self.target_healed_refs@.len(),
                        pred == (|p: PlayerReference| attacked(*game, p)),
                        kept == self.target_healed_refs@.take(i as int).filter(pred),
                        out@.len() == kept.len(),
                        forall|j: int| 0 <= j < out@.len() ==> clears_guard_messages(*game, #[trigger] out@[j], kept[j]),
                    decreases self.target_healed_refs@.len() - i,
                {
                    let p = self.target_healed_refs[i];
                    let hit = (p.index as usize) < game.players.len() && game.players[p.index as usize].night_attacked;
                    let ghost old_out = out@;
                    if hit {
                        let messages = remove_guard_messages(&game.players[p.index as usize].night_messages);
                        out.push(Effect::SetNightMessages { player: p, messages });
                    }
                    proof {
                        reveal_with_fuel(Seq::filter, 1);
                        let t1 = self.target_healed_refs@.take(i as int + 1);
                        assert(t1.drop_last() =~= self.target_healed_refs@.take(i as int));
                        assert(t1.last() == p);
                        let prev = kept;
                        kept = t1.filter(pred);
                        assert forall|j: int| 0 <= j < out@.len() implies clears_guard_messages(*game, #[trigger] out@[j], kept[j]) by {
                            if j < old_out.len() {
                                assert(out@[j] == old_out[j]);
                                assert(kept[j] == prev[j]);
                            }
                        }
                    }
                    i = i + 1;
                }
                proof {
                    assert(self.target_healed_refs@.take(i as int) =~= self.target_healed_refs@);
                }
                (self, out)
            },
            _ => (self, out),
        }
    }

    /// The steward picks up to two roles at night, with no repeats, among
    /// the enabled roles it may pick.
    pub fn controller_parameters_map(&self, game: &Game, actor_ref: PlayerReference) -> (r: ControllerParameters)
        ensures
            r.id == ControllerID::role(actor_ref, Role::Steward, 0),
            r.available matches AvailableAbilitySelection::RoleList { available_roles, can_choose_duplicates, max_roles }
                && available_roles@ == game.settings.enabled_roles@.filter(
                |x: Role| steward_may_pick(self.self_heals_remaining, self.previous_input@, x),
            ) && !can_choose_duplicates && max_roles == Some(2u8),
            r.night_typical,
            !r.grayed_out,
    {
        let enabled = game.settings.enabled_roles.as_vec();
        let ghost pred = |x: Role| steward_may_pick(self.self_heals_remaining, self.previous_input@, x);
        let mut roles: Vec<Role> = Vec::new();
        let mut i: usize = 0;
        while i < enabled.len()
            invariant
                i <= enabled@.len(),
                enabled@ == game.settings.enabled_roles@,
                pred == (|x: Role| steward_may_pick(self.self_heals_remaining, self.previous_input@, x)),
                roles@ == enabled@.take(i as int).filter(pred),
            decreases enabled@.len() - i,
        {
            let x = enabled[i];
            let ghost prev = roles@;
            let in_prev = super::common_role::roles_contain(&self.previous_input, x);
            if (self.self_heals_remaining > 0 || x != Role::Steward) && !in_prev {
                roles.push(x);
            }
            proof {
                reveal_with_fuel(Seq::filter, 1);
                let t1 = enabled@.take(i as int + 1);
                assert(t1.drop_last() =~= enabled@.take(i as int));
                assert(t1.last() == x);
            }
            i = i + 1;
        }
        proof {
            assert(enabled@.take(i as int) =~= enabled@);
        }
        ControllerParameters {
            id: ControllerID::role(actor_ref, Role::Steward, 0),
            available: AvailableAbilitySelection::RoleList {
                available_roles: roles,
                can_choose_duplicates: false,
                max_roles: Some(2),
            },
            grayed_out: false,
            night_typical: true,
            reset_on_phase_start: None,
            dont_save: false,
            default_selection: None,
            allowed_players: vec![actor_ref],
        }
    }

    /// Each phase starts with no one protected.
    pub fn on_phase_start(self) -> (r: Steward)
        ensures
            r.self_heals_remaining == self.self_heals_remaining,
            r.target_healed_refs@.len() == 0,
            r.previous_input@ == self.previous_input@,
    {
        Steward {
            self_heals_remaining: self.self_heals_remaining,
            target_healed_refs: Vec::new(),
            previous_input: self.previous_input,
        }
    }
}

/// Whether `p` is a player of the game who was attacked tonight.
/// Whether `e` replaces the night report of `p` with that report less the
/// messages telling them they were guarded or survived an attack.
pub open spec fn clears_guard_messages(game: Game, e: Effect, p: PlayerReference) -> bool {
    match e {
        Effect::SetNightMessages { player, messages } => player == p && same_messages(
            messages@,
            without_guard_messages(data(game, p).night_messages@),
        ),
        _ => false,
    }
}

pub open spec fn attacked(game: Game, p: PlayerReference) -> bool {
    valid_player(game, p) && data(game, p).night_attacked
}

impl GetClientRoleState<ClientRoleState> for Steward {
    fn get_client_role_state(self, game: &Game, actor_ref: PlayerReference) -> (r: ClientRoleState)
        ensures
            r.steward_protects_remaining == self.self_heals_remaining,
            r.previous_role_chosen@ == self.previous_input@,
    {
        ClientRoleState {
            steward_protects_remaining: self.self_heals_remaining,
            previous_role_chosen: self.previous_input,
        }
    }
}

} // verus!

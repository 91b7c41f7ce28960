//! The veteran: on alert, is protected and shoots everyone who visits it.

use vstd::prelude::*;
use crate::game::{Game, data, valid_player, game_ok, alive};
use crate::game::player::PlayerReference;
use crate::game::effect::{Effect, GraveKiller};
use crate::game::attack_power::{AttackPower, DefensePower};
use crate::game::ability_input::{ControllerID, ControllerParameters, AvailableAbilitySelection, saved_boolean, get_boolean_selection};
use super::{Role, Priority, GetClientRoleState};
use super::common_role::{visitors, visitors_of};

verus! {

#[derive(Clone, Copy, Debug, PartialEq, Eq, Structural)]
pub struct Veteran {
    pub alerts_remaining: u8,
    pub alerting_tonight: bool,
}

#[derive(Clone, Copy, Debug)]
pub struct ClientRoleState {
    pub alerts_remaining: u8,
}

impl Default for Veteran {
    fn default() -> (r: Self)
        ensures
            r.alerts_remaining == 3,
            !r.alerting_tonight,
    {
        Veteran { alerts_remaining: 3, alerting_tonight: false }
    }
}

/// The living visitors other than the veteran.
pub open spec fn shot_at(game: Game, actor: PlayerReference) -> Seq<PlayerReference> {
    visitors(game, actor).filter(|p: PlayerReference| shootable(game, actor, p))
}

pub open spec fn shootable(game: Game, actor: PlayerReference, p: PlayerReference) -> bool {
    alive(game, p) && p != actor
}

pub open spec fn veteran_night(game: Game, actor: PlayerReference, state: Veteran, priority: Priority) -> (Veteran, Seq<Effect>) {
    match priority {
        Priority::TopPriority => if state.alerts_remaining > 0 && game.day_number > 1 && saved_boolean(
            game,
            ControllerID::role(actor, Role::Veteran, 0),
        ) == Some(true) {
            (Veteran { alerts_remaining: (state.alerts_remaining - 1) as u8, alerting_tonight: true }, Seq::empty())
        } else {
            (state, Seq::empty())
        },
        Priority::Heal => (state, if state.alerting_tonight {
            seq![Effect::Defend { target: actor, power: DefensePower::Protected }]
        } else {
            Seq::empty()
        }),
        Priority::Kill => (state, if state.alerting_tonight {
            shot_at(game, actor).map_values(
                |p: PlayerReference|
                    Effect::Attack {
                        attacker: actor,
                        target: p,
                        killer: GraveKiller::Role(Role::Veteran),
                        power: AttackPower::ArmorPiercing,
                        leave_death_note: false,
                    },
            )
        } else {
            Seq::empty()
        }),
        _ => (state, Seq::empty()),
    }
}

impl Veteran {
    /// A new veteran gets an alert for every five players, rounding up.
    pub fn new_state(game: &Game) -> (r: Veteran)
        requires
            game.players@.len() < 256,
        ensures
            r.alerts_remaining == (game.players@.len() + 4) / 5,
            !r.alerting_tonight,
    {
        let n = game.num_players();
        Veteran { alerts_remaining: n / 5 + if n % 5 > 0 { 1 } else { 0 }, alerting_tonight: false }
    }

    /// At the top of the night a veteran with alerts left after the first
    /// night goes on alert when it chose to, spending one; on alert it is
    /// protected at the heal step and shoots every living visitor at the
    /// kill step.
    pub fn do_night_action(&self, game: &Game, actor_ref: PlayerReference, priority: Priority) -> (r: (Veteran, Vec<Effect>))
        requires
            game_ok(*game),
        ensures
            (r.0, r.1@) == veteran_night(*game, actor_ref, *self, priority),
    {
        match priority {
            Priority::TopPriority => {
                let chose = match get_boolean_selection(game, ControllerID::role(actor_ref, Role::Veteran, 0)) {
                    Some(true) => true,
                    _ => false,
                };
                if self.alerts_remaining > 0 && game.day_number > 1 && chose {
                    (Veteran { alerts_remaining: self.alerts_remaining - 1, alerting_tonight: true }, Vec::new())
                } else {
                    (*self, Vec::new())
                }
            },
            Priority::Heal => {
                if self.alerting_tonight {
                    (*self, vec![Effect::Defend { target: actor_ref, power: DefensePower::Protected }])
                } else {
                    (*self, Vec::new())
                }
            },
            Priority::Kill => {
                let mut out: Vec<Effect> = Vec::new();
                if !self.alerting_tonight {
                    return (*self, out);
                }
                let vis = visitors_of(game, actor_ref);
                let ghost pred = |p: PlayerReference| shootable(*game, actor_ref, p);
                let ghost kept: Seq<PlayerReference> = Seq::empty();
                let mut i: usize = 0;
                while i < vis.len()
                    invariant
                        i <= vis@.len(),
                        vis@ == visitors(*game, actor_ref),
                        pred == (|p: PlayerReference| shootable(*game, actor_ref, p)),
                        kept == vis@.take(i as int).filter(pred),
                        out@ =~= kept.map_values(
                            |p: PlayerReference|
                                Effect::Attack {
                                    attacker: actor_ref,
                                    target: p,
                                    killer: GraveKiller::Role(Role::Veteran),
                                    power: AttackPower::ArmorPiercing,
                                    leave_death_note: false,
                                },
                        ),
                    decreases vis@.len() - i,
                {
                    let p = vis[i];
                    if crate::game::player_alive(game, p) && p != actor_ref {
                        out.push(
                            Effect::Attack {
                                attacker: actor_ref,
                                target: p,
                                killer: GraveKiller::Role(Role::Veteran),
                                power: AttackPower::ArmorPiercing,
                                leave_death_note: false,
                            },
                        );
                    }
                    proof {
                        reveal_with_fuel(Seq::filter, 1);
                        let t1 = vis@.take(i as int + 1);
                        assert(t1.drop_last() =~= vis@.take(i as int));
                        assert(t1.last() == p);
                        kept = t1.filter(pred);
                    }
                    i = i + 1;
                }
                proof {
                    assert(vis@.take(i as int) =~= vis@);
                }
                (*self, out)
            },
            _ => (*self, Vec::new()),
        }
    }

    /// Whether to alert, grayed out with no alerts left or on the first night.
    pub fn controller_parameters_map(&self, game: &Game, actor_ref: PlayerReference) -> (r: ControllerParameters)
        ensures
            r.id == ControllerID::role(actor_ref, Role::Veteran, 0),
            r.available == AvailableAbilitySelection::Boolean,
            r.grayed_out == (self.alerts_remaining == 0 || game.day_number <= 1),
            r.allowed_players@ == seq![actor_ref],
    {
        ControllerParameters {
            id: ControllerID::role(actor_ref, Role::Veteran, 0),
            available: AvailableAbilitySelection::Boolean,
            grayed_out: self.alerts_remaining == 0 || game.day_number <= 1,
            night_typical: false,
            reset_on_phase_start: None,
            dont_save: false,
            default_selection: None,
            allowed_players: vec![actor_ref],
        }
    }

    /// Each phase starts off alert.
    pub fn on_phase_start(&self) -> (r: Veteran)
        ensures
            r == (Veteran { alerts_remaining: self.alerts_remaining, alerting_tonight: false }),
    {
        Veteran { alerts_remaining: self.alerts_remaining, alerting_tonight: false }
    }
}

impl GetClientRoleState<ClientRoleState> for Veteran {
    fn get_client_role_state(self, game: &Game, actor_ref: PlayerReference) -> (r: ClientRoleState)
        ensures
            r.alerts_remaining == self.alerts_remaining,
    {
        ClientRoleState { alerts_remaining: self.alerts_remaining }
    }
}

} // verus!

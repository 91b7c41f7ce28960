//! The puppeteer: kills, or strings players as its marionettes.

use vstd::prelude::*;
use crate::game::{Game, data, valid_player, game_ok, alive};
use crate::game::player::PlayerReference;
use crate::game::chat::ChatMessageVariant;
use crate::game::effect::{Effect, GraveKiller};
use crate::game::attack_power::{AttackPower, pierces};
use crate::game::visit::Visit;
use crate::game::ability_input::{
    ControllerID, ControllerParameters, AvailableAbilitySelection, AbilitySelection, saved_integer,
    get_integer_selection,
};
use super::{Role, Priority};
use super::common_role::{spec_first_visit, first_visit, visits_ok, selection_visits, convert_controller_selection_to_visits};

verus! {

#[derive(Clone, Copy, Debug, PartialEq, Eq, Structural)]
pub struct Puppeteer {
    pub marionettes_remaining: u8,
}

impl Default for Puppeteer {
    fn default() -> (r: Self)
        ensures
            r.marionettes_remaining == 3,
    {
        Puppeteer { marionettes_remaining: 3 }
    }
}

/// Whether `p` is a marionette or a puppeteer.
pub open spec fn in_the_show(game: Game, p: PlayerReference) -> bool {
    data(game, p).is_marionette || data(game, p).role == Role::Puppeteer
}

/// The puppeteer's kill step after the first night: with its choice set to
/// string, a target whose defense an armor-piercing attack gets through is
/// strung (spending a marionette when it was not one yet), and a stronger
/// defense makes it fail; otherwise it attacks the target.
pub open spec fn puppeteer_night(game: Game, actor: PlayerReference, state: Puppeteer, priority: Priority) -> (Puppeteer, Seq<Effect>) {
    if priority != Priority::Kill || game.day_number <= 1 {
        (state, Seq::empty())
    } else {
        match spec_first_visit(game, actor) {
            None => (state, Seq::empty()),
            Some(v) => {
                let t = v.target;
                let string = match saved_integer(game, ControllerID::role(actor, Role::Puppeteer, 1)) {
                    Some(x) => x == 1,
                    None => false,
                };
                if string {
                    if !pierces(AttackPower::ArmorPiercing, data(game, t).defense) {
                        (state, seq![Effect::NightMessage { to: actor, message: ChatMessageVariant::YourConvertFailed }])
                    } else if !data(game, t).is_marionette {
                        (
                            Puppeteer {
                                marionettes_remaining: if state.marionettes_remaining > 0 {
                                    (state.marionettes_remaining - 1) as u8
                                } else {
                                    0
                                },
                            },
                            seq![Effect::StringMarionette { target: t }],
                        )
                    } else {
                        (state, Seq::empty())
                    }
                } else {
                    (
                        state,
                        seq![
                            Effect::Attack {
                                attacker: actor,
                                target: t,
                                killer: GraveKiller::Role(Role::Puppeteer),
                                power: AttackPower::ArmorPiercing,
                                leave_death_note: true,
                            },
                        ],
                    )
                }
            },
        }
    }
}

impl Puppeteer {
    /// A new puppeteer gets a marionette for every five players, rounding up.
    pub fn new_state(game: &Game) -> (r: Puppeteer)
        requires
            game.players@.len() < 256,
        ensures
            r.marionettes_remaining == (game.players@.len() + 4) / 5,
    {
        let n = game.num_players();
        Puppeteer { marionettes_remaining: n / 5 + if n % 5 > 0 { 1 } else { 0 } }
    }

    pub fn do_night_action(&self, game: &Game, actor_ref: PlayerReference, priority: Priority) -> (r: (Puppeteer, Vec<Effect>))
        requires
            game_ok(*game),
            visits_ok(*game),
            valid_player(*game, actor_ref),
        ensures
            (r.0, r.1@) == puppeteer_night(*game, actor_ref, *self, priority),
    {
        let mut out: Vec<Effect> = Vec::new();
        if priority != Priority::Kill || game.day_number <= 1 {
            return (*self, out);
        }
        let v = match first_visit(game, actor_ref) {
            Some(v) => v,
            None => return (*self, out),
        };
        let t = v.target;
        assert(valid_player(*game, t));
        let string = match get_integer_selection(game, ControllerID::role(actor_ref, Role::Puppeteer, 1)) {
            Some(x) => x == 1,
            None => false,
        };
        if string {
            let d = &game.players[t.index as usize];
            if !AttackPower::ArmorPiercing.can_pierce(d.defense) {
                out.push(Effect::NightMessage { to: actor_ref, message: ChatMessageVariant::YourConvertFailed });
                (*self, out)
            } else if !d.is_marionette {
                out.push(Effect::StringMarionette { target: t });
                let left = if self.marionettes_remaining > 0 {
                    self.marionettes_remaining - 1
                } else {
                    0
                };
                (Puppeteer { marionettes_remaining: left }, out)
            } else {
                (*self, out)
            }
        } else {
            out.push(
                Effect::Attack {
                    attacker: actor_ref,
                    target: t,
                    killer: GraveKiller::Role(Role::Puppeteer),
                    power: AttackPower::ArmorPiercing,
                    leave_death_note: true,
                },
            );
            (*self, out)
        }
    }

    /// Two controllers, both grayed out while detained, once the ability is
    /// gone, and on the first day: a living player outside the show to
    /// visit, and whether to string (1) or attack (0), stringing only
    /// allowed with a marionette left.
    pub fn controller_parameters_map(&self, game: &Game, actor_ref: PlayerReference) -> (r: Vec<ControllerParameters>)
        requires
            game_ok(*game),
            valid_player(*game, actor_ref),
        ensures
            r@.len() == 2,
            r@[0].id == ControllerID::role(actor_ref, Role::Puppeteer, 0),
            r@[0].available matches AvailableAbilitySelection::PlayerList {
                available_players,
                can_choose_duplicates,
                max_players,
            } && available_players@ == crate::game::filtered(*game, (Some(true), seq![actor_ref], None)).filter(
                |p: PlayerReference| !in_the_show(*game, p),
            ) && !can_choose_duplicates && max_players == Some(1u8),
            r@[0].default_selection matches Some(AbilitySelection::PlayerList(v)) && v@.len() == 0,
            r@[0].grayed_out == (data(*game, actor_ref).detained || data(*game, actor_ref).ability_deactivated_from_death
                || game.day_number <= 1),
            r@[1].id == ControllerID::role(actor_ref, Role::Puppeteer, 1),
            r@[1].available == (AvailableAbilitySelection::Integer {
                min: 0,
                max: if self.marionettes_remaining > 0 { 1 } else { 0 },
            }),
            r@[1].default_selection == Some(AbilitySelection::Integer(0)),
            r@[1].grayed_out == r@[0].grayed_out,
            r@[0].allowed_players@ == seq![actor_ref],
            r@[1].allowed_players@ == seq![actor_ref],
    {
        let exclude = vec![actor_ref];
        let others = crate::game::filter_players(game, Some(true), &exclude, None);
        proof {
            assert(exclude@ =~= seq![actor_ref]);
            assert forall|j: int| 0 <= j < others@.len() implies valid_player(*game, #[trigger] others@[j]) by {
                crate::game::lemma_filtered_contains(*game, (Some(true), seq![actor_ref], None), game.players@.len() as int, others@[j]);
            }
        }
        let ghost pred = |p: PlayerReference| !in_the_show(*game, p);
        let mut avail: Vec<PlayerReference> = Vec::new();
        let mut i: usize = 0;
        while i < others.len()
            invariant
                i <= others@.len(),
                forall|j: int| 0 <= j < others@.len() ==> valid_player(*game, #[trigger] others@[j]),
                pred == (|p: PlayerReference| !in_the_show(*game, p)),
                avail@ == others@.take(i as int).filter(pred),
            decreases others@.len() - i,
        {
            let p = others[i];
            let d = &game.players[p.index as usize];
            if !(d.is_marionette || d.role == Role::Puppeteer) {
                avail.push(p);
            }
            proof {
                reveal_with_fuel(Seq::filter, 1);
                let t1 = others@.take(i as int + 1);
                assert(t1.drop_last() =~= others@.take(i as int));
                assert(t1.last() == p);
            }
            i = i + 1;
        }
        proof {
            assert(others@.take(i as int) =~= others@);
        }
        let a = &game.players[actor_ref.index as usize];
        let grayed = a.detained || a.ability_deactivated_from_death || game.day_number <= 1;
        let visit = ControllerParameters {
            id: ControllerID::role(actor_ref, Role::Puppeteer, 0),
            available: AvailableAbilitySelection::PlayerList {
                available_players: avail,
                can_choose_duplicates: false,
                max_players: Some(1),
            },
            grayed_out: grayed,
            night_typical: false,
            reset_on_phase_start: None,
            dont_save: false,
            default_selection: Some(AbilitySelection::PlayerList(Vec::new())),
            allowed_players: vec![actor_ref],
        };
        let choice = ControllerParameters {
            id: ControllerID::role(actor_ref, Role::Puppeteer, 1),
            available: AvailableAbilitySelection::Integer {
                min: 0,
                max: if self.marionettes_remaining > 0 { 1 } else { 0 },
            },
            grayed_out: grayed,
            night_typical: false,
            reset_on_phase_start: None,
            dont_save: false,
            default_selection: Some(AbilitySelection::Integer(0)),
            allowed_players: vec![actor_ref],
        };
        vec![visit, choice]
    }

    /// The puppeteer visits the player of its first controller, as an attack.
    pub fn convert_selection_to_visits(&self, game: &Game, actor_ref: PlayerReference) -> (r: Vec<Visit>)
        ensures
            r@ == selection_visits(*game, actor_ref, Role::Puppeteer, 0, true),
    {
        convert_controller_selection_to_visits(game, actor_ref, Role::Puppeteer, 0, true)
    }
}

} // verus!

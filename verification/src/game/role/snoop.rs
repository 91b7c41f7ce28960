//! The snoop: learns whether the player it visits is a townsperson, if no
//! one visits the snoop.

use vstd::prelude::*;
use crate::game::{Game, data, valid_player, game_ok};
use crate::game::player::PlayerReference;
use crate::game::chat::ChatMessageVariant;
use crate::game::effect::Effect;
use crate::game::visit::Visit;
use crate::game::ability_input::{ControllerID, ControllerParameters, AvailableAbilitySelection};
use super::{Role, OnMidnightPriority};
use super::common_role::{spec_first_visit, first_visit, visitors, visitors_of, visits_ok, selection_visits, convert_controller_selection_to_visits};

verus! {

#[derive(Clone, Copy, Debug, Default)]
pub struct Snoop;

/// The snoop's reading: never a townsperson when confused; otherwise one
/// when the target is loyal to the town, without a suspicious aura, and no
/// one visited the snoop.
pub open spec fn snoop_reading(game: Game, actor: PlayerReference, t: PlayerReference) -> bool {
    if data(game, actor).confused {
        false
    } else {
        data(game, t).loyalist_for_town && !data(game, t).has_suspicious_aura && visitors(game, actor).len() == 0
    }
}

impl Snoop {
    pub fn on_midnight(&self, game: &Game, actor_ref: PlayerReference, priority: OnMidnightPriority) -> (r: Vec<Effect>)
        requires
            game_ok(*game),
            visits_ok(*game),
            valid_player(*game, actor_ref),
        ensures
            r@ == if priority == OnMidnightPriority::Investigative && spec_first_visit(*game, actor_ref) is Some {
                seq![
                    Effect::NightMessage {
                        to: actor_ref,
                        message: ChatMessageVariant::SnoopResult {
                            townie: snoop_reading(*game, actor_ref, spec_first_visit(*game, actor_ref)->0.target),
                        },
                    },
                ]
            } else {
                Seq::empty()
            },
    {
        let mut out: Vec<Effect> = Vec::new();
        if priority != OnMidnightPriority::Investigative {
            return out;
        }
        match first_visit(game, actor_ref) {
            Some(v) => {
                assert(valid_player(*game, crate::game::role::common_role::visits_of(*game, actor_ref)[0].target));
                let townie = if game.players[actor_ref.index as usize].confused {
                    false
                } else {
                    let d = &game.players[v.target.index as usize];
                    d.loyalist_for_town && !d.has_suspicious_aura && visitors_of(game, actor_ref).len() == 0
                };
                out.push(Effect::NightMessage { to: actor_ref, message: ChatMessageVariant::SnoopResult { townie } });
            },
            None => {},
        }
        out
    }

    /// The snoop picks another player at night, insiders allowed.
    pub fn controller_parameters_map(&self, game: &Game, actor_ref: PlayerReference) -> (r: ControllerParameters)
        ensures
            r.id == ControllerID::role(actor_ref, Role::Snoop, 0),
            r.available == (AvailableAbilitySelection::SinglePlayerTypical {
                can_select_self: false,
                can_select_insiders: true,
            }),
            r.night_typical,
            !r.grayed_out,
    {
        ControllerParameters {
            id: ControllerID::role(actor_ref, Role::Snoop, 0),
            available: AvailableAbilitySelection::SinglePlayerTypical {
                can_select_self: false,
                can_select_insiders: true,
            },
            grayed_out: false,
            night_typical: true,
            reset_on_phase_start: None,
            dont_save: false,
            default_selection: None,
            allowed_players: vec![actor_ref],
        }
    }

    pub fn convert_selection_to_visits(&self, game: &Game, actor_ref: PlayerReference) -> (r: Vec<Visit>)
        ensures
            r@ == selection_visits(*game, actor_ref, Role::Snoop, 0, false),
    {
        convert_controller_selection_to_visits(game, actor_ref, Role::Snoop, 0, false)
    }
}

} // verus!

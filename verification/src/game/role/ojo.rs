//! The ojo: kills, and sees where every player went.

use vstd::prelude::*;
use crate::game::{Game, data, valid_player, game_ok};
use crate::game::player::{PlayerIndex, PlayerReference};
use crate::game::chat::ChatMessageVariant;
use crate::game::effect::{Effect, GraveKiller};
use crate::game::attack_power::AttackPower;
use crate::game::visit::Visit;
use crate::game::ability_input::{ControllerID, ControllerParameters, AvailableAbilitySelection};
use crate::random::shuffle;
use super::{Role, OnMidnightPriority};
use super::werewolf::is_tracking_report;
use super::common_role::{spec_first_visit, first_visit, visited_indices, selection_visits, convert_controller_selection_to_visits};

verus! {

#[derive(Clone, Copy, Debug, Default)]
pub struct Ojo;

/// The steps of sending a whisper.
#[derive(Clone, Copy, Debug, PartialEq, Eq, Structural)]
pub enum WhisperPriority {
    Cancel,
    Broadcast,
    Send,
}

/// Whether `e` tells `actor` that `sender` whispered `text` to `receiver`.
pub open spec fn is_overheard(e: Effect, actor: PlayerReference, sender: PlayerReference, receiver: PlayerReference, text: Seq<char>) -> bool {
    match e {
        Effect::PrivateMessage { to, message: ChatMessageVariant::Whisper { from_player_index, to_player_index, text: t } } => to
            == actor && from_player_index == sender.index && to_player_index == receiver.index && t@ == text,
        _ => false,
    }
}

impl Ojo {
    /// After the first night the ojo attacks the player it visits; at the
    /// investigative step it learns, for every player in index order, where
    /// they went, in a shuffled order.
    pub fn on_midnight(&self, game: &Game, actor_ref: PlayerReference, priority: OnMidnightPriority) -> (r: Vec<Effect>)
        requires
            game_ok(*game),
            valid_player(*game, actor_ref),
        ensures
            priority == OnMidnightPriority::Kill ==> r@ == if game.day_number == 1 {
                Seq::empty()
            } else {
                match spec_first_visit(*game, actor_ref) {
                    Some(v) => seq![
                        Effect::Attack {
                            attacker: actor_ref,
                            target: v.target,
                            killer: GraveKiller::Role(Role::Ojo),
                            power: AttackPower::ArmorPiercing,
                            leave_death_note: true,
                        },
                    ],
                    None => Seq::empty(),
                }
            },
            priority == OnMidnightPriority::Investigative ==> r@.len() == game.players@.len() && forall|i: int|
                0 <= i < r@.len() ==> is_tracking_report(*game, actor_ref, PlayerReference { index: i as u8 }, #[trigger] r@[i]),
            priority != OnMidnightPriority::Kill && priority != OnMidnightPriority::Investigative ==> r@.len() == 0,
    {
        let mut out: Vec<Effect> = Vec::new();
        match priority {
            OnMidnightPriority::Kill => {
                if game.day_number == 1 {
                    return out;
                }
                match first_visit(game, actor_ref) {
                    Some(v) => {
                        out.push(
                            Effect::Attack {
                                attacker: actor_ref,
                                target: v.target,
                                killer: GraveKiller::Role(Role::Ojo),
                                power: AttackPower::ArmorPiercing,
                                leave_death_note: true,
                            },
                        );
                    },
                    None => {},
                }
                out
            },
            OnMidnightPriority::Investigative => {
                let mut i: usize = 0;
                while i < game.players.len()
                    invariant
                        i <= game.players@.len(),
                        game_ok(*game),
                        out@.len() == i,
                        forall|j: int|
                            0 <= j < i ==> is_tracking_report(*game, actor_ref, PlayerReference { index: j as u8 }, #[trigger] out@[j]),
                    decreases game.players@.len() - i,
                {
                    let p = PlayerReference { index: i as u8 };
                    let mut players = visited_indices(game, p);
                    shuffle(&mut players);
                    out.push(
                        Effect::NightMessage {
                            to: actor_ref,
                            message: ChatMessageVariant::WerewolfTrackingResult { tracked_player: p.index, players },
                        },
                    );
                    i = i + 1;
                }
                out
            },
            _ => out,
        }
    }

    /// The ojo picks another player at night, outsiders only, from the
    /// second night on.
    pub fn controller_parameters_map(&self, game: &Game, actor_ref: PlayerReference) -> (r: ControllerParameters)
        ensures
            r.id == ControllerID::role(actor_ref, Role::Ojo, 0),
            r.available == (AvailableAbilitySelection::SinglePlayerTypical {
                can_select_self: false,
                can_select_insiders: false,
            }),
            r.night_typical,
            r.grayed_out == (game.day_number <= 1),
    {
        ControllerParameters {
            id: ControllerID::role(actor_ref, Role::Ojo, 0),
            available: AvailableAbilitySelection::SinglePlayerTypical {
                can_select_self: false,
                can_select_insiders: false,
            },
            grayed_out: game.day_number <= 1,
            night_typical: true,
            reset_on_phase_start: None,
            dont_save: false,
            default_selection: None,
            allowed_players: vec![actor_ref],
        }
    }

    pub fn convert_selection_to_visits(&self, game: &Game, actor_ref: PlayerReference) -> (r: Vec<Visit>)
        ensures
            r@ == selection_visits(*game, actor_ref, Role::Ojo, 0, true),
    {
        convert_controller_selection_to_visits(game, actor_ref, Role::Ojo, 0, true)
    }

    /// The ojo overhears every whisper that goes through and that it neither
    /// sent nor received.
    pub fn on_whisper(
        &self,
        actor_ref: PlayerReference,
        sender: PlayerReference,
        receiver: PlayerReference,
        text: &String,
        cancelled: bool,
        priority: WhisperPriority,
    ) -> (r: Vec<Effect>)
        ensures
            (priority == WhisperPriority::Send && !cancelled && receiver != actor_ref && sender != actor_ref) ==> r@.len()
                == 1 && is_overheard(r@[0], actor_ref, sender, receiver, text@),
            !(priority == WhisperPriority::Send && !cancelled && receiver != actor_ref && sender != actor_ref)
                ==> r@.len() == 0,
    {
        let mut out: Vec<Effect> = Vec::new();
        if priority == WhisperPriority::Send && !cancelled && receiver != actor_ref && sender != actor_ref {
            out.push(
                Effect::PrivateMessage {
                    to: actor_ref,
                    message: ChatMessageVariant::Whisper {
                        from_player_index: sender.index,
                        to_player_index: receiver.index,
                        text: text.clone(),
                    },
                },
            );
        }
        out
    }
}

} // verus!

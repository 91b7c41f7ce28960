//! The sheriff: learns whether the player it visits looks suspicious.

use vstd::prelude::*;
use crate::game::{Game, data, valid_player};
use crate::game::player::PlayerReference;
use crate::game::chat::ChatMessageVariant;
use crate::game::effect::Effect;
use super::Priority;
use super::common_role::{spec_first_visit, first_visit, visits_ok};

verus! {

#[derive(Clone, Copy, Debug, Default, PartialEq, Eq, Structural)]
pub struct Sheriff;

impl Sheriff {
    /// At the investigative step a free sheriff learns whether the player it
    /// visits looks suspicious, or that they were jailed.
    pub fn do_night_action(&self, game: &Game, actor_ref: PlayerReference, priority: Priority) -> (r: Vec<Effect>)
        requires
            visits_ok(*game),
            valid_player(*game, actor_ref),
        ensures
            r@ == if !data(*game, actor_ref).detained && priority == Priority::Investigative && spec_first_visit(
                *game,
                actor_ref,
            ) is Some {
                let t = spec_first_visit(*game, actor_ref)->0.target;
                seq![
                    Effect::NightMessage {
                        to: actor_ref,
                        message: if data(*game, t).detained {
                            ChatMessageVariant::TargetJailed
                        } else {
                            ChatMessageVariant::SheriffResult { suspicious: data(*game, t).has_suspicious_aura }
                        },
                    },
                ]
            } else {
                Seq::empty()
            },
    {
        let mut out: Vec<Effect> = Vec::new();
        if game.players[actor_ref.index as usize].detained || priority != Priority::Investigative {
            return out;
        }
        match first_visit(game, actor_ref) {
            Some(v) => {
                assert(valid_player(*game, crate::game::role::common_role::visits_of(*game, actor_ref)[0].target));
                let d = &game.players[v.target.index as usize];
                let message = if d.detained {
                    ChatMessageVariant::TargetJailed
                } else {
                    ChatMessageVariant::SheriffResult { suspicious: d.has_suspicious_aura }
                };
                out.push(Effect::NightMessage { to: actor_ref, message });
            },
            None => {},
        }
        out
    }

    /// The sheriff has no day ability.
    pub fn can_day_target(&self, game: &Game, actor_ref: PlayerReference, target_ref: PlayerReference) -> (r: bool)
        ensures
            !r,
    {
        false
    }
}

} // verus!

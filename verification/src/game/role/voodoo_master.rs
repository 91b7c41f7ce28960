//! The voodoo master: silences the player it visits.

use vstd::prelude::*;
use crate::game::{Game, data, valid_player};
use crate::game::player::PlayerReference;
use crate::game::chat::ChatMessageVariant;
use crate::game::effect::Effect;
use super::Priority;
use super::common_role::{spec_first_visit, first_visit, visits_ok};

verus! {

/// At the deception step a free voodoo master silences the player it
/// visits, or learns that they were jailed.
pub fn do_night_action(game: &Game, actor_ref: PlayerReference, priority: Priority) -> (r: Vec<Effect>)
    requires
        visits_ok(*game),
        valid_player(*game, actor_ref),
    ensures
        r@ == if !data(*game, actor_ref).detained && priority == Priority::Deception && spec_first_visit(*game, actor_ref) is Some {
            let t = spec_first_visit(*game, actor_ref)->0.target;
            if data(*game, t).detained {
                seq![Effect::NightMessage { to: actor_ref, message: ChatMessageVariant::TargetJailed }]
            } else {
                seq![Effect::Silence { target: t }]
            }
        } else {
            Seq::empty()
        },
{
    if game.players[actor_ref.index as usize].detained || priority != Priority::Deception {
        return Vec::new();
    }
    match first_visit(game, actor_ref) {
        Some(v) => {
            assert(valid_player(*game, crate::game::role::common_role::visits_of(*game, actor_ref)[0].target));
            if game.players[v.target.index as usize].detained {
                vec![Effect::NightMessage { to: actor_ref, message: ChatMessageVariant::TargetJailed }]
            } else {
                vec![Effect::Silence { target: v.target }]
            }
        },
        None => Vec::new(),
    }
}

/// The voodoo master has no day ability.
pub fn can_day_target(game: &Game, actor_ref: PlayerReference, target_ref: PlayerReference) -> (r: bool)
    ensures
        !r,
{
    false
}

} // verus!

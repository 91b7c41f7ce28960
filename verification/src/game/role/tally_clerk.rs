//! The tally clerk: counts the suspicious among the living who voted guilty
//! today.

use vstd::prelude::*;
use crate::game::{Game, data, valid_player, game_ok};
use crate::game::player::PlayerReference;
use crate::game::chat::ChatMessageVariant;
use crate::game::effect::Effect;
use crate::random::random_range;
use super::OnMidnightPriority;
use super::supervisor::spec_player_is_suspicious;

verus! {

#[derive(Clone, Copy, Debug, Default)]
pub struct TallyClerk;

/// How many of the first `n` players are alive, voted guilty today and are
/// suspicious, at most 255.
pub open spec fn evil_guilties_upto(game: Game, n: int) -> nat
    decreases n,
{
    if n <= 0 {
        0
    } else {
        let p = PlayerReference { index: (n - 1) as u8 };
        let before = evil_guilties_upto(game, n - 1);
        if data(game, p).alive && data(game, p).guiltied_today && spec_player_is_suspicious(game, p) && before < 255 {
            before + 1
        } else {
            before
        }
    }
}

/// How many of the first `n` players voted guilty today.
pub open spec fn guilties_upto(game: Game, n: int) -> nat
    decreases n,
{
    if n <= 0 {
        0
    } else {
        guilties_upto(game, n - 1) + if data(game, PlayerReference { index: (n - 1) as u8 }).guiltied_today {
            1nat
        } else {
            0nat
        }
    }
}

pub open spec fn spec_result(game: Game) -> u8 {
    evil_guilties_upto(game, game.players@.len() as int) as u8
}

/// A confused clerk's count: the true count plus `extra` (saturating), at
/// most the number of guilty votes.
pub open spec fn spec_confused_result(game: Game, extra: u8) -> u8 {
    let raised = if spec_result(game) as int + extra as int > 255 { 255 } else { spec_result(game) as int + extra as int };
    let total = guilties_upto(game, game.players@.len() as int);
    (if raised <= total { raised } else { total as int }) as u8
}

/// Whether `p` is a living player who voted guilty today and carries a
/// suspicious aura, or carries no aura and is not loyal to the town.
pub open spec fn suspicious_guilty_voter(game: Game, p: PlayerReference) -> bool {
    &&& data(game, p).alive
    &&& data(game, p).guiltied_today
    &&& (data(game, p).has_suspicious_aura || (!data(game, p).has_innocent_aura && !data(game, p).loyalist_for_town))
}

/// How many of the first `n` players are such voters.
pub open spec fn suspicious_guilty_voters_upto(game: Game, n: int) -> nat
    decreases n,
{
    if n <= 0 {
        0
    } else {
        suspicious_guilty_voters_upto(game, n - 1) + if suspicious_guilty_voter(game, PlayerReference { index: (n - 1) as u8 }) {
            1nat
        } else {
            0nat
        }
    }
}

/// The clerk counts every living player who voted guilty today and reads as
/// suspicious (by aura, or with no aura by not being loyal to the town), up
/// to 255.
pub proof fn lemma_tally_counts_suspicious_voters(game: Game, n: int)
    ensures
        evil_guilties_upto(game, n) == if suspicious_guilty_voters_upto(game, n) < 255 {
            suspicious_guilty_voters_upto(game, n)
        } else {
            255
        },
    decreases n,
{
    if n > 0 {
        lemma_tally_counts_suspicious_voters(game, n - 1);
        let p = PlayerReference { index: (n - 1) as u8 };
        super::supervisor::lemma_player_is_suspicious(game, p);
    }
}

impl TallyClerk {
    pub fn result(game: &Game) -> (r: u8)
        requires
            game_ok(*game),
        ensures
            r == spec_result(*game),
    {
        let mut out: u8 = 0;
        let mut i: usize = 0;
        while i < game.players.len()
            invariant
                i <= game.players@.len(),
                game_ok(*game),
                out == evil_guilties_upto(*game, i as int),
            decreases game.players@.len() - i,
        {
            let p = PlayerReference { index: i as u8 };
            let d = &game.players[i];
            if d.alive && d.guiltied_today && TallyClerk::player_is_suspicious(game, p) && out < 255 {
                out = out + 1;
            }
            i = i + 1;
        }
        out
    }

    /// The count a confused clerk gets with a random extra of zero or one.
    pub fn confused_result(game: &Game) -> (r: u8)
        requires
            game_ok(*game),
        ensures
            r == spec_confused_result(*game, 0) || r == spec_confused_result(*game, 1),
    {
        let extra = random_range(0, 2);
        TallyClerk::confused_result_with(game, extra)
    }

    pub fn confused_result_with(game: &Game, extra: u8) -> (r: u8)
        requires
            game_ok(*game),
        ensures
            r == spec_confused_result(*game, extra),
    {
        let base = TallyClerk::result(game);
        let raised: u8 = if base as u16 + extra as u16 > 255 { 255 } else { base + extra };
        let mut total: usize = 0;
        let mut i: usize = 0;
        while i < game.players.len()
            invariant
                i <= game.players@.len(),
                game_ok(*game),
                total == guilties_upto(*game, i as int),
                total <= i,
            decreases game.players@.len() - i,
        {
            if game.players[i].guiltied_today {
                total = total + 1;
            }
            i = i + 1;
        }
        if (raised as usize) <= total {
            raised
        } else {
            total as u8
        }
    }

    pub fn player_is_suspicious(game: &Game, player_ref: PlayerReference) -> (r: bool)
        requires
            valid_player(*game, player_ref),
        ensures
            r == spec_player_is_suspicious(*game, player_ref),
    {
        super::supervisor::Supervisor::player_is_suspicious(game, player_ref)
    }

    /// At the investigative step a clerk whose ability works learns the
    /// count, or a confused one's count.
    pub fn on_midnight(&self, game: &Game, actor_ref: PlayerReference, priority: OnMidnightPriority) -> (r: Vec<Effect>)
        requires
            game_ok(*game),
            valid_player(*game, actor_ref),
        ensures
            ({
                let works = !data(*game, actor_ref).night_blocked && !data(*game, actor_ref).ability_deactivated_from_death
                    && priority == OnMidnightPriority::Investigative;
                &&& works && !data(*game, actor_ref).confused ==> r@ == seq![
                    Effect::NightMessage { to: actor_ref, message: ChatMessageVariant::TallyClerkResult { evil_count: spec_result(*game) } },
                ]
                &&& works && data(*game, actor_ref).confused ==> exists|extra: u8|
                    extra < 2 && r@ == seq![
                        Effect::NightMessage {
                            to: actor_ref,
                            message: ChatMessageVariant::TallyClerkResult { evil_count: spec_confused_result(*game, extra) },
                        },
                    ]
                &&& !works ==> r@.len() == 0
            }),
    {
        let d = &game.players[actor_ref.index as usize];
        if d.night_blocked || d.ability_deactivated_from_death || priority != OnMidnightPriority::Investigative {
            return Vec::new();
        }
        if d.confused {
            let extra = random_range(0, 2);
            let evil_count = TallyClerk::confused_result_with(game, extra);
            vec![Effect::NightMessage { to: actor_ref, message: ChatMessageVariant::TallyClerkResult { evil_count } }]
        } else {
            let evil_count = TallyClerk::result(game);
            vec![Effect::NightMessage { to: actor_ref, message: ChatMessageVariant::TallyClerkResult { evil_count } }]
        }
    }
}

} // verus!

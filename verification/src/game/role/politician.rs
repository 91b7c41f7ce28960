//! The politician: once only loyal townsfolk are left to oppose it, a
//! countdown starts, and at the end of the next day everyone not loyal to it
//! leaves the town; it leaves itself when no loyal townsfolk remain.

use vstd::prelude::*;
use crate::game::{Game, data, valid_player, game_ok, alive};
use crate::game::player::PlayerReference;
use crate::game::chat::{ChatGroup, ChatMessageVariant};
use crate::game::effect::Effect;
use crate::game::phase::PhaseType;
use crate::game::tag::Tag;
use crate::game::ability_input::{ControllerID, ControllerParameters, AvailableAbilitySelection, AbilitySelection};
use super::{Role, GetClientRoleState};

verus! {

#[derive(Clone, Copy, Debug, PartialEq, Eq, Structural)]
pub enum PoliticianState {
    Idle,
    CountdownStarted,
    FinalNomination,
    Finished,
}

#[derive(Clone, Copy, Debug, PartialEq, Eq, Structural)]
pub struct Politician {
    pub revealed: bool,
    pub state: PoliticianState,
}

#[derive(Clone, Copy, Debug)]
pub struct ClientRoleState;

impl Default for Politician {
    fn default() -> (r: Self)
        ensures
            !r.revealed,
            r.state == PoliticianState::Idle,
    {
        Politician { revealed: false, state: PoliticianState::Idle }
    }
}

pub open spec fn spec_countdown_started(s: PoliticianState) -> bool {
    s == PoliticianState::CountdownStarted || s == PoliticianState::FinalNomination
}

impl PoliticianState {
    /// No countdown has been started.
    pub fn is_none(&self) -> (r: bool)
        ensures
            r == (*self == PoliticianState::Idle),
    {
        matches!(self, PoliticianState::Idle)
    }

    /// The countdown runs: started, or at its final nomination.
    pub fn countdown_started(&self) -> (r: bool)
        ensures
            r == spec_countdown_started(*self),
    {
        match self {
            PoliticianState::Idle => false,
            PoliticianState::CountdownStarted => true,
            PoliticianState::FinalNomination => true,
            PoliticianState::Finished => false,
        }
    }

    pub fn final_nomination(&self) -> (r: bool)
        ensures
            r == (*self == PoliticianState::FinalNomination),
    {
        match self {
            PoliticianState::Idle => false,
            PoliticianState::CountdownStarted => false,
            PoliticianState::FinalNomination => true,
            PoliticianState::Finished => false,
        }
    }
}

/// No living player who keeps the game running is loyal to the town.
pub open spec fn no_loyal_town(game: Game) -> bool {
    forall|i: int|
        0 <= i < game.players@.len() ==> ((#[trigger] game.players@[i]).alive && game.players@[i].keeps_game_running
            ==> !game.players@[i].loyalist_for_town)
}

/// Every other living player who keeps the game running is loyal to the town.
pub open spec fn only_loyal_town(game: Game, actor: PlayerReference) -> bool {
    forall|i: int|
        0 <= i < game.players@.len() && i != actor.index ==> ((#[trigger] game.players@[i]).alive
            && game.players@[i].keeps_game_running ==> game.players@[i].loyalist_for_town)
}

pub open spec fn spec_should_start_countdown(game: Game, actor: PlayerReference, state: Politician) -> bool {
    !spec_countdown_started(state.state) && alive(game, actor) && only_loyal_town(game, actor)
}

/// The players among the first `n` who leave when the countdown ends: the
/// living ones not loyal to the politician.
pub open spec fn leavers_upto(game: Game, n: int) -> Seq<Effect>
    decreases n,
{
    if n <= 0 {
        Seq::empty()
    } else {
        let p = PlayerReference { index: (n - 1) as u8 };
        if data(game, p).alive && !data(game, p).loyalist_for_politician {
            leavers_upto(game, n - 1).push(Effect::LeaveTown { player: p })
        } else {
            leavers_upto(game, n - 1)
        }
    }
}

/// A politician with no countdown running leaves the town when alive with
/// no loyal townsfolk left.
pub open spec fn leave_effects(game: Game, actor: PlayerReference, state: Politician) -> Seq<Effect> {
    if !spec_countdown_started(state.state) && alive(game, actor) && no_loyal_town(game) {
        seq![Effect::LeaveTown { player: actor }]
    } else {
        Seq::empty()
    }
}

fn check_no_loyal_town(game: &Game) -> (r: bool)
    ensures
        r == no_loyal_town(*game),
{
    let mut i: usize = 0;
    while i < game.players.len()
        invariant
            i <= game.players@.len(),
            forall|j: int|
                0 <= j < i ==> ((#[trigger] game.players@[j]).alive && game.players@[j].keeps_game_running
                    ==> !game.players@[j].loyalist_for_town),
        decreases game.players@.len() - i,
    {
        let d = &game.players[i];
        if d.alive && d.keeps_game_running && d.loyalist_for_town {
            return false;
        }
        i = i + 1;
    }
    true
}

fn check_only_loyal_town(game: &Game, actor: PlayerReference) -> (r: bool)
    ensures
        r == only_loyal_town(*game, actor),
{
    let mut i: usize = 0;
    while i < game.players.len()
        invariant
            i <= game.players@.len(),
            forall|j: int|
                0 <= j < i && j != actor.index ==> ((#[trigger] game.players@[j]).alive
                    && game.players@[j].keeps_game_running ==> game.players@[j].loyalist_for_town),
        decreases game.players@.len() - i,
    {
        let d = &game.players[i];
        if i != actor.index as usize && d.alive && d.keeps_game_running && !d.loyalist_for_town {
            return false;
        }
        i = i + 1;
    }
    true
}

impl Politician {
    /// When the politician's own player uses its mayor controller, it is
    /// revealed to all: every player sees it enfranchised, and the
    /// nominations are counted, starting a trial at once unless nominations
    /// are scheduled.
    pub fn on_validated_ability_input_received(
        &self,
        game: &Game,
        actor_ref: PlayerReference,
        input_player: PlayerReference,
        id: ControllerID,
    ) -> (r: (Politician, Vec<Effect>))
        requires
            game_ok(*game),
        ensures
            actor_ref == input_player && id == ControllerID::role(actor_ref, Role::Mayor, 0) ==> r.0 == (Politician {
                revealed: true,
                state: self.state,
            }) && r.1@ == seq![
                Effect::GroupMessage {
                    group: ChatGroup::All,
                    message: ChatMessageVariant::MayorRevealed { player_index: actor_ref.index },
                },
            ] + Seq::new(
                game.players@.len(),
                |i: int| Effect::PlayerTag { viewer: PlayerReference { index: i as u8 }, player: actor_ref, tag: Tag::Enfranchised },
            ) + seq![Effect::CountNominations { start_trial: !game.settings.scheduled_nominations }],
            !(actor_ref == input_player && id == ControllerID::role(actor_ref, Role::Mayor, 0)) ==> r.0 == *self
                && r.1@.len() == 0,
    {
        let mut out: Vec<Effect> = Vec::new();
        if actor_ref != input_player || id != ControllerID::role(actor_ref, Role::Mayor, 0) {
            return (*self, out);
        }
        out.push(
            Effect::GroupMessage {
                group: ChatGroup::All,
                message: ChatMessageVariant::MayorRevealed { player_index: actor_ref.index },
            },
        );
        let mut i: usize = 0;
        while i < game.players.len()
            invariant
                i <= game.players@.len(),
                game_ok(*game),
                out@ =~= seq![
                    Effect::GroupMessage {
                        group: ChatGroup::All,
                        message: ChatMessageVariant::MayorRevealed { player_index: actor_ref.index },
                    },
                ] + Seq::new(
                    i as nat,
                    |k: int| Effect::PlayerTag { viewer: PlayerReference { index: k as u8 }, player: actor_ref, tag: Tag::Enfranchised },
                ),
            decreases game.players@.len() - i,
        {
            out.push(Effect::PlayerTag { viewer: PlayerReference { index: i as u8 }, player: actor_ref, tag: Tag::Enfranchised });
            i = i + 1;
        }
        out.push(Effect::CountNominations { start_trial: !game.settings.scheduled_nominations });
        (Politician { revealed: true, state: self.state }, out)
    }

    /// A politician leaving the role is no longer shown enfranchised to anyone.
    pub fn before_role_switch(&self, game: &Game, actor_ref: PlayerReference, player: PlayerReference) -> (r: Vec<Effect>)
        requires
            game_ok(*game),
        ensures
            actor_ref == player ==> r@ == Seq::new(
                game.players@.len(),
                |i: int| Effect::RemovePlayerTag { viewer: PlayerReference { index: i as u8 }, player: actor_ref, tag: Tag::Enfranchised },
            ),
            actor_ref != player ==> r@.len() == 0,
    {
        let mut out: Vec<Effect> = Vec::new();
        if actor_ref != player {
            return out;
        }
        let mut i: usize = 0;
        while i < game.players.len()
            invariant
                i <= game.players@.len(),
                game_ok(*game),
                out@ =~= Seq::new(
                    i as nat,
                    |k: int| Effect::RemovePlayerTag { viewer: PlayerReference { index: k as u8 }, player: actor_ref, tag: Tag::Enfranchised },
                ),
            decreases game.players@.len() - i,
        {
            out.push(Effect::RemovePlayerTag { viewer: PlayerReference { index: i as u8 }, player: actor_ref, tag: Tag::Enfranchised });
            i = i + 1;
        }
        out
    }

    /// The reveal controller: nothing to pick, never saved, grayed out once
    /// the ability is gone, once revealed, and at night and in the briefing.
    pub fn controller_parameters_map(&self, game: &Game, actor_ref: PlayerReference) -> (r: ControllerParameters)
        requires
            valid_player(*game, actor_ref),
        ensures
            r.id == ControllerID::role(actor_ref, Role::Politician, 0),
            r.available == AvailableAbilitySelection::Unit,
            r.default_selection == Some(AbilitySelection::Unit),
            r.grayed_out == (data(*game, actor_ref).ability_deactivated_from_death || self.revealed || game.phase
                == PhaseType::Night || game.phase == PhaseType::Briefing),
            r.dont_save,
            r.allowed_players@ == seq![actor_ref],
    {
        ControllerParameters {
            id: ControllerID::role(actor_ref, Role::Politician, 0),
            available: AvailableAbilitySelection::Unit,
            grayed_out: game.players[actor_ref.index as usize].ability_deactivated_from_death || self.revealed
                || game.phase == PhaseType::Night || game.phase == PhaseType::Briefing,
            night_typical: false,
            reset_on_phase_start: None,
            dont_save: true,
            default_selection: Some(AbilitySelection::Unit),
            allowed_players: vec![actor_ref],
        }
    }

    /// Whether the countdown should start: it is not running, the politician
    /// is alive, and every other living player who keeps the game running is
    /// loyal to the town.
    pub fn should_start_countdown(&self, game: &Game, actor_ref: PlayerReference) -> (r: bool)
        ensures
            r == spec_should_start_countdown(*game, actor_ref, *self),
    {
        !self.state.countdown_started() && crate::game::player_alive(game, actor_ref) && check_only_loyal_town(game, actor_ref)
    }

    /// Starts the countdown when it should start, announcing it to all; this
    /// runs when the role is created and at every death.
    pub fn check_and_start_countdown(&self, game: &Game, actor_ref: PlayerReference) -> (r: (Politician, Vec<Effect>))
        ensures
            spec_should_start_countdown(*game, actor_ref, *self) ==> r.0 == (Politician {
                revealed: self.revealed,
                state: PoliticianState::CountdownStarted,
            }) && r.1@ == seq![
                Effect::GroupMessage { group: ChatGroup::All, message: ChatMessageVariant::PoliticianCountdownStarted },
            ],
            !spec_should_start_countdown(*game, actor_ref, *self) ==> r.0 == *self && r.1@.len() == 0,
    {
        let mut out: Vec<Effect> = Vec::new();
        if !crate::game::player_alive(game, actor_ref) || self.state.countdown_started() {
            return (*self, out);
        }
        if self.should_start_countdown(game, actor_ref) {
            out.push(Effect::GroupMessage { group: ChatGroup::All, message: ChatMessageVariant::PoliticianCountdownStarted });
            (Politician { revealed: self.revealed, state: PoliticianState::CountdownStarted }, out)
        } else {
            (*self, out)
        }
    }

    /// Every death may start the countdown.
    pub fn on_any_death(&self, game: &Game, actor_ref: PlayerReference) -> (r: (Politician, Vec<Effect>))
        ensures
            spec_should_start_countdown(*game, actor_ref, *self) ==> r.0 == (Politician {
                revealed: self.revealed,
                state: PoliticianState::CountdownStarted,
            }) && r.1@ == seq![
                Effect::GroupMessage { group: ChatGroup::All, message: ChatMessageVariant::PoliticianCountdownStarted },
            ],
            !spec_should_start_countdown(*game, actor_ref, *self) ==> r.0 == *self && r.1@.len() == 0,
    {
        self.check_and_start_countdown(game, actor_ref)
    }

    /// The politician leaves the town when it is alive, no countdown runs,
    /// and no loyal townsfolk are left.
    pub fn check_and_leave_town(&self, game: &Game, actor_ref: PlayerReference) -> (r: Vec<Effect>)
        ensures
            r@ == leave_effects(*game, actor_ref, *self),
    {
        let mut out: Vec<Effect> = Vec::new();
        if !self.state.countdown_started() && crate::game::player_alive(game, actor_ref) && check_no_loyal_town(game) {
            out.push(Effect::LeaveTown { player: actor_ref });
        }
        out
    }

    /// Everyone alive who is not loyal to the politician leaves the town.
    pub fn kill_all(game: &Game) -> (r: Vec<Effect>)
        requires
            game_ok(*game),
        ensures
            r@ == leavers_upto(*game, game.players@.len() as int),
    {
        let mut out: Vec<Effect> = Vec::new();
        let mut i: usize = 0;
        while i < game.players.len()
            invariant
                i <= game.players@.len(),
                game_ok(*game),
                out@ == leavers_upto(*game, i as int),
            decreases game.players@.len() - i,
        {
            let d = &game.players[i];
            if d.alive && !d.loyalist_for_politician {
                out.push(Effect::LeaveTown { player: PlayerReference { index: i as u8 } });
            }
            i = i + 1;
        }
        out
    }

    /// Each phase first checks whether the politician leaves; then, with the
    /// countdown running and the politician alive, the nomination becomes the
    /// final one, and at dusk after it everyone not loyal to it leaves.
    pub fn on_phase_start(&self, game: &Game, actor_ref: PlayerReference, phase: PhaseType) -> (r: (Politician, Vec<Effect>))
        requires
            game_ok(*game),
        ensures
            ({
                let leave = leave_effects(*game, actor_ref, *self);
                if spec_countdown_started(self.state) && alive(*game, actor_ref) {
                    if phase == PhaseType::Nomination {
                        r.0 == (Politician { revealed: self.revealed, state: PoliticianState::FinalNomination })
                            && r.1@ == leave
                    } else if phase == PhaseType::Dusk && self.state == PoliticianState::FinalNomination {
                        r.0 == *self && r.1@ == leave + leavers_upto(*game, game.players@.len() as int)
                    } else {
                        r.0 == *self && r.1@ == leave
                    }
                } else {
                    r.0 == *self && r.1@ == leave
                }
            }),
    {
        let mut out = self.check_and_leave_town(game, actor_ref);
        if self.state.countdown_started() && crate::game::player_alive(game, actor_ref) {
            if phase == PhaseType::Nomination {
                return (Politician { revealed: self.revealed, state: PoliticianState::FinalNomination }, out);
            } else if phase == PhaseType::Dusk && self.state == PoliticianState::FinalNomination {
                let mut all = Politician::kill_all(game);
                out.append(&mut all);
            }
        }
        (*self, out)
    }
}

impl GetClientRoleState<ClientRoleState> for Politician {
    fn get_client_role_state(self, game: &Game, actor_ref: PlayerReference) -> ClientRoleState {
        ClientRoleState
    }
}

} // verus!

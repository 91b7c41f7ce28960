//! The reporter: publishes a report to the whole town at night, and
//! interviews a player in a private chat.

use vstd::prelude::*;
use crate::vec_set::VecSet;
use crate::game::{Game, data, valid_player, game_ok, alive, filtered, filter_players};
use crate::game::player::PlayerReference;
use crate::game::chat::{ChatGroup, ChatMessageVariant};
use crate::game::effect::Effect;
use crate::game::phase::PhaseType;
use crate::game::ability_input::{
    ControllerID, ControllerParameters, AvailableAbilitySelection, AbilitySelection, saved_boolean,
    get_boolean_selection, saved_string, get_string_selection, saved_player_list, get_player_list_selection,
};
use super::{Role, Priority};

verus! {

#[derive(Clone, Copy, Debug, PartialEq, Eq, Structural)]
pub struct Reporter {
    pub interviewed_target: Option<PlayerReference>,
}

impl Default for Reporter {
    fn default() -> (r: Self)
        ensures
            r.interviewed_target is None,
    {
        Reporter { interviewed_target: None }
    }
}

/// The report text saved in the reporter's third controller, empty when none is.
pub open spec fn report_text(game: Game, actor: PlayerReference) -> Seq<char> {
    match saved_string(game, ControllerID::role(actor, Role::Reporter, 2)) {
        Some(s) => s@,
        None => Seq::empty(),
    }
}

/// Whether the reporter publishes tonight: it chose to, and it can act and speak.
pub open spec fn publishes(game: Game, actor: PlayerReference) -> bool {
    &&& saved_boolean(game, ControllerID::role(actor, Role::Reporter, 1)) == Some(true)
    &&& !data(game, actor).ability_deactivated_from_death
    &&& !data(game, actor).night_blocked
    &&& !data(game, actor).night_silenced
}

/// Whether the interview chat is open: at night, with the reporter's ability
/// working and the interviewed player alive.
pub open spec fn interview_open(game: Game, actor: PlayerReference, state: Reporter) -> bool {
    &&& game.phase == PhaseType::Night
    &&& !data(game, actor).ability_deactivated_from_death
    &&& state.interviewed_target matches Some(p) && alive(game, p)
}

/// Whether `e` posts the report `text` in the all-players chat.
pub open spec fn is_report(e: Effect, text: Seq<char>) -> bool {
    match e {
        Effect::GroupMessage { group, message: ChatMessageVariant::ReporterReport { report } } => group
            == ChatGroup::All && report@ == text,
        _ => false,
    }
}

fn interview_open_exec(game: &Game, actor_ref: PlayerReference, state: &Reporter) -> (r: bool)
    requires
        valid_player(*game, actor_ref),
    ensures
        r == interview_open(*game, actor_ref, *state),
{
    game.phase == PhaseType::Night && !game.players[actor_ref.index as usize].ability_deactivated_from_death
        && match state.interviewed_target {
        Some(p) => crate::game::player_alive(game, p),
        None => false,
    }
}

impl Reporter {
    /// At the investigative step a publishing reporter posts its report,
    /// or an empty one when it wrote none, to everyone.
    pub fn do_night_action(&self, game: &Game, actor_ref: PlayerReference, priority: Priority) -> (r: Vec<Effect>)
        requires
            valid_player(*game, actor_ref),
        ensures
            priority == Priority::Investigative && publishes(*game, actor_ref) ==> r@.len() == 1 && is_report(
                r@[0],
                report_text(*game, actor_ref),
            ),
            !(priority == Priority::Investigative && publishes(*game, actor_ref)) ==> r@.len() == 0,
    {
        let mut out: Vec<Effect> = Vec::new();
        let d = &game.players[actor_ref.index as usize];
        let public = match get_boolean_selection(game, ControllerID::role(actor_ref, Role::Reporter, 1)) {
            Some(b) => b,
            None => false,
        };
        if priority == Priority::Investigative && public && !d.ability_deactivated_from_death && !d.night_blocked
            && !d.night_silenced {
            let report = match get_string_selection(game, ControllerID::role(actor_ref, Role::Reporter, 2)) {
                Some(s) => s.clone(),
                None => String::new(),
            };
            out.push(Effect::GroupMessage { group: ChatGroup::All, message: ChatMessageVariant::ReporterReport { report } });
        }
        out
    }

    /// Three controllers, each grayed out once the ability is gone: another
    /// living player to interview (cleared at nightfall), whether to publish
    /// (default no), and the report text (default empty).
    pub fn controller_parameters_map(&self, game: &Game, actor_ref: PlayerReference) -> (r: Vec<ControllerParameters>)
        requires
            game_ok(*game),
            valid_player(*game, actor_ref),
        ensures
            r@.len() == 3,
            r@[0].id == ControllerID::role(actor_ref, Role::Reporter, 0),
            r@[0].available matches AvailableAbilitySelection::PlayerList {
                available_players,
                can_choose_duplicates,
                max_players,
            } && available_players@ == filtered(*game, (Some(true), seq![actor_ref], None)) && !can_choose_duplicates
                && max_players == Some(1u8),
            r@[0].reset_on_phase_start == Some(PhaseType::Night),
            r@[0].default_selection matches Some(AbilitySelection::PlayerList(l)) && l@.len() == 0,
            r@[1].reset_on_phase_start is None,
            r@[2].reset_on_phase_start is None,
            r@[1].id == ControllerID::role(actor_ref, Role::Reporter, 1),
            r@[1].available == AvailableAbilitySelection::Boolean,
            r@[1].default_selection == Some(AbilitySelection::Boolean(false)),
            r@[2].id == ControllerID::role(actor_ref, Role::Reporter, 2),
            r@[2].available == AvailableAbilitySelection::String,
            r@[2].default_selection matches Some(AbilitySelection::String(s)) && s@.len() == 0,
            forall|i: int| 0 <= i < 3 ==> (#[trigger] r@[i]).grayed_out == data(*game, actor_ref).ability_deactivated_from_death
                && r@[i].allowed_players@ == seq![actor_ref] && !r@[i].night_typical && !r@[i].dont_save,
    {
        let deactivated = game.players[actor_ref.index as usize].ability_deactivated_from_death;
        let exclude = vec![actor_ref];
        let others = filter_players(game, Some(true), &exclude, None);
        proof {
            assert(exclude@ =~= seq![actor_ref]);
        }
        let interview = ControllerParameters {
            id: ControllerID::role(actor_ref, Role::Reporter, 0),
            available: AvailableAbilitySelection::PlayerList {
                available_players: others,
                can_choose_duplicates: false,
                max_players: Some(1),
            },
            grayed_out: deactivated,
            night_typical: false,
            reset_on_phase_start: Some(PhaseType::Night),
            dont_save: false,
            default_selection: Some(AbilitySelection::PlayerList(Vec::new())),
            allowed_players: vec![actor_ref],
        };
        let publicize = ControllerParameters {
            id: ControllerID::role(actor_ref, Role::Reporter, 1),
            available: AvailableAbilitySelection::Boolean,
            grayed_out: deactivated,
            night_typical: false,
            reset_on_phase_start: None,
            dont_save: false,
            default_selection: Some(AbilitySelection::Boolean(false)),
            allowed_players: vec![actor_ref],
        };
        let report = ControllerParameters {
            id: ControllerID::role(actor_ref, Role::Reporter, 2),
            available: AvailableAbilitySelection::String,
            grayed_out: deactivated,
            night_typical: false,
            reset_on_phase_start: None,
            dont_save: false,
            default_selection: Some(AbilitySelection::String(String::new())),
            allowed_players: vec![actor_ref],
        };
        let r = vec![interview, publicize, report];
        assert(forall|i: int| 0 <= i < 3 ==> (#[trigger] r@[i]).grayed_out == deactivated && !r@[i].night_typical && !r@[i].dont_save);
        r
    }

    /// The chat groups the reporter can write in: those the game gives it,
    /// and the interview while it is open.
    pub fn get_current_send_chat_groups(&self, game: &Game, actor_ref: PlayerReference, common: VecSet<ChatGroup>) -> (r: VecSet<ChatGroup>)
        requires
            valid_player(*game, actor_ref),
        ensures
            interview_open(*game, actor_ref, *self) ==> (if common@.contains(ChatGroup::Interview) {
                r@ == common@
            } else {
                r@ == common@.push(ChatGroup::Interview)
            }),
            !interview_open(*game, actor_ref, *self) ==> r@ == common@,
    {
        let mut out = common;
        if interview_open_exec(game, actor_ref, self) {
            out.insert(ChatGroup::Interview);
        }
        out
    }

    /// The chat groups the reporter reads: the same as those it writes in.
    pub fn get_current_receive_chat_groups(&self, game: &Game, actor_ref: PlayerReference, common: VecSet<ChatGroup>) -> (r: VecSet<ChatGroup>)
        requires
            valid_player(*game, actor_ref),
        ensures
            interview_open(*game, actor_ref, *self) ==> (if common@.contains(ChatGroup::Interview) {
                r@ == common@
            } else {
                r@ == common@.push(ChatGroup::Interview)
            }),
            !interview_open(*game, actor_ref, *self) ==> r@ == common@,
    {
        self.get_current_send_chat_groups(game, actor_ref, common)
    }

    /// At nightfall the reporter interviews the player it picked, if its
    /// ability works and they are alive; that player is told. At the
    /// obituary the interview ends.
    pub fn on_phase_start(&self, game: &Game, actor_ref: PlayerReference, phase: PhaseType) -> (r: (Reporter, Vec<Effect>))
        requires
            valid_player(*game, actor_ref),
        ensures
            phase == PhaseType::Night ==> match saved_player_list(*game, ControllerID::role(actor_ref, Role::Reporter, 0)) {
                Some(list) => if list.len() > 0 && !data(*game, actor_ref).ability_deactivated_from_death && alive(
                    *game,
                    list[0],
                ) {
                    r.0.interviewed_target == Some(list[0]) && r.1@ == seq![
                        Effect::InsiderOrPrivateMessage {
                            to: list[0],
                            message: ChatMessageVariant::PlayerIsBeingInterviewed { player_index: list[0].index },
                        },
                    ]
                } else {
                    r.0 == *self && r.1@.len() == 0
                },
                None => r.0 == *self && r.1@.len() == 0,
            },
            phase == PhaseType::Obituary ==> r.0.interviewed_target is None && r.1@.len() == 0,
            phase != PhaseType::Night && phase != PhaseType::Obituary ==> r.0 == *self && r.1@.len() == 0,
    {
        let mut out: Vec<Effect> = Vec::new();
        match phase {
            PhaseType::Night => {
                let list = match get_player_list_selection(game, ControllerID::role(actor_ref, Role::Reporter, 0)) {
                    Some(list) => list,
                    None => return (*self, out),
                };
                if list.len() == 0 {
                    return (*self, out);
                }
                let target = list[0];
                if game.players[actor_ref.index as usize].ability_deactivated_from_death || !crate::game::player_alive(game, target) {
                    return (*self, out);
                }
                out.push(
                    Effect::InsiderOrPrivateMessage {
                        to: target,
                        message: ChatMessageVariant::PlayerIsBeingInterviewed { player_index: target.index },
                    },
                );
                (Reporter { interviewed_target: Some(target) }, out)
            },
            PhaseType::Obituary => (Reporter { interviewed_target: None }, out),
            _ => (*self, out),
        }
    }
}

} // verus!

//! Controllers: the inputs a role offers its player, and the selections saved for them.

use vstd::prelude::*;
use super::player::PlayerReference;
use super::role::Role;
use super::phase::PhaseType;
use super::Game;

verus! {

/// Names one controller of one player.
#[derive(Clone, Copy, PartialEq, Eq, Structural, Debug)]
pub enum ControllerID {
    Role { player: PlayerReference, role: Role, id: u8 },
    WardenLiveOrDie { warden: PlayerReference, player: PlayerReference },
}

impl ControllerID {
    #[verifier::allow_in_spec]
    pub fn role(player: PlayerReference, role: Role, id: u8) -> ControllerID
        returns
            (ControllerID::Role { player, role, id }),
    {
        ControllerID::Role { player, role, id }
    }
}

/// What a player may select in a controller.
#[derive(Debug)]
pub enum AvailableAbilitySelection {
    Unit,
    Boolean,
    String,
    PlayerList { available_players: Vec<PlayerReference>, can_choose_duplicates: bool, max_players: Option<u8> },
    TwoPlayerOption {
        available_first_players: Vec<PlayerReference>,
        available_second_players: Vec<PlayerReference>,
        can_choose_duplicates: bool,
        can_choose_none: bool,
    },
    Integer { min: i8, max: i8 },
    RoleOption { available_roles: Vec<Option<Role>> },
    RoleList { available_roles: Vec<Role>, can_choose_duplicates: bool, max_roles: Option<u8> },
    /// The engine's usual choice of an outline of the role list.
    RoleOutlineTypical,
    /// The engine's usual choice of one player, with these exceptions.
    SinglePlayerTypical { can_select_self: bool, can_select_insiders: bool },
}

/// A selection saved for a controller.
#[derive(Debug)]
pub enum AbilitySelection {
    Unit,
    Boolean(bool),
    PlayerList(Vec<PlayerReference>),
    TwoPlayerOption(Option<(PlayerReference, PlayerReference)>),
    Integer(i8),
    RoleOption(Option<Role>),
    RoleList(Vec<Role>),
    String(String),
}

/// One controller a role offers.
#[derive(Debug)]
pub struct ControllerParameters {
    pub id: ControllerID,
    pub available: AvailableAbilitySelection,
    /// The controller is shown but cannot be used.
    pub grayed_out: bool,
    /// The engine's usual night restrictions apply.
    pub night_typical: bool,
    pub reset_on_phase_start: Option<PhaseType>,
    pub dont_save: bool,
    /// What the controller holds before the player chooses.
    pub default_selection: Option<AbilitySelection>,
    /// The players who may use the controller.
    pub allowed_players: Vec<PlayerReference>,
}

/// The index of the first saved selection for `id`, if there is one.
pub open spec fn saved_selection_index(saved: Seq<(ControllerID, AbilitySelection)>, id: ControllerID) -> Option<int>
    decreases saved.len(),
{
    if saved.len() == 0 {
        None
    } else {
        match saved_selection_index(saved.drop_last(), id) {
            Some(i) => Some(i),
            None => if saved.last().0 == id { Some(saved.len() - 1) } else { None },
        }
    }
}

/// The selection saved for `id`, if there is one.
pub open spec fn saved_selection(game: Game, id: ControllerID) -> Option<AbilitySelection> {
    match saved_selection_index(game.saved_controllers@, id) {
        Some(i) => Some(game.saved_controllers@[i].1),
        None => None,
    }
}

proof fn lemma_saved_selection_index(saved: Seq<(ControllerID, AbilitySelection)>, id: ControllerID, i: int)
    requires
        0 <= i <= saved.len(),
        forall|j: int| 0 <= j < i ==> (#[trigger] saved[j]).0 != id,
    ensures
        i < saved.len() && saved[i].0 == id ==> saved_selection_index(saved, id) == Some(i),
        i == saved.len() ==> saved_selection_index(saved, id) is None,
    decreases saved.len(),
{
    if saved.len() > 0 {
        if i < saved.len() {
            if saved[i].0 == id && i < saved.len() - 1 {
                assert forall|j: int| 0 <= j < i implies (#[trigger] saved.drop_last()[j]).0 != id by {
                    assert(saved.drop_last()[j] == saved[j]);
                }
                lemma_saved_selection_index(saved.drop_last(), id, i);
            } else if saved[i].0 == id {
                assert forall|j: int| 0 <= j < i implies (#[trigger] saved.drop_last()[j]).0 != id by {
                    assert(saved.drop_last()[j] == saved[j]);
                }
                lemma_saved_selection_index(saved.drop_last(), id, saved.len() - 1);
            }
        } else {
            assert forall|j: int| 0 <= j < saved.len() - 1 implies (#[trigger] saved.drop_last()[j]).0 != id by {
                assert(saved.drop_last()[j] == saved[j]);
            }
            lemma_saved_selection_index(saved.drop_last(), id, saved.len() - 1);
        }
    }
}

/// The selection saved for `id`, if there is one.
pub fn get_controller_current_selection(game: &Game, id: ControllerID) -> (r: Option<&AbilitySelection>)
    ensures
        r is Some <==> saved_selection(*game, id) is Some,
        r matches Some(s) ==> saved_selection(*game, id) == Some(*s),
{
    let saved = &game.saved_controllers;
    let mut i: usize = 0;
    while i < saved.len()
        invariant
            i <= saved@.len(),
            saved@ == game.saved_controllers@,
            forall|j: int| 0 <= j < i ==> (#[trigger] saved@[j]).0 != id,
        decreases saved@.len() - i,
    {
        if saved[i].0 == id {
            proof {
                lemma_saved_selection_index(saved@, id, i as int);
            }
            return Some(&saved[i].1);
        }
        i = i + 1;
    }
    proof {
        lemma_saved_selection_index(saved@, id, i as int);
    }
    None
}

/// The boolean saved for `id`, if a boolean is saved for it.
pub open spec fn saved_boolean(game: Game, id: ControllerID) -> Option<bool> {
    match saved_selection(game, id) {
        Some(AbilitySelection::Boolean(b)) => Some(b),
        _ => None,
    }
}

pub fn get_boolean_selection(game: &Game, id: ControllerID) -> (r: Option<bool>)
    ensures
        r == saved_boolean(*game, id),
{
    match get_controller_current_selection(game, id) {
        Some(AbilitySelection::Boolean(b)) => Some(*b),
        _ => None,
    }
}

/// The integer saved for `id`, if an integer is saved for it.
pub open spec fn saved_integer(game: Game, id: ControllerID) -> Option<i8> {
    match saved_selection(game, id) {
        Some(AbilitySelection::Integer(x)) => Some(x),
        _ => None,
    }
}

pub fn get_integer_selection(game: &Game, id: ControllerID) -> (r: Option<i8>)
    ensures
        r == saved_integer(*game, id),
{
    match get_controller_current_selection(game, id) {
        Some(AbilitySelection::Integer(x)) => Some(*x),
        _ => None,
    }
}

/// The players saved for `id`, if a player list is saved for it.
pub open spec fn saved_player_list(game: Game, id: ControllerID) -> Option<Seq<PlayerReference>> {
    match saved_selection(game, id) {
        Some(AbilitySelection::PlayerList(v)) => Some(v@),
        _ => None,
    }
}

pub fn get_player_list_selection(game: &Game, id: ControllerID) -> (r: Option<&Vec<PlayerReference>>)
    ensures
        r is Some <==> saved_player_list(*game, id) is Some,
        r matches Some(v) ==> saved_player_list(*game, id) == Some(v@),
{
    match get_controller_current_selection(game, id) {
        Some(AbilitySelection::PlayerList(v)) => Some(v),
        _ => None,
    }
}

/// The role saved for `id`, if a role option holding a role is saved for it.
pub open spec fn saved_role_option(game: Game, id: ControllerID) -> Option<Role> {
    match saved_selection(game, id) {
        Some(AbilitySelection::RoleOption(Some(role))) => Some(role),
        _ => None,
    }
}

pub fn get_role_option_selection(game: &Game, id: ControllerID) -> (r: Option<Role>)
    ensures
        r == saved_role_option(*game, id),
{
    match get_controller_current_selection(game, id) {
        Some(AbilitySelection::RoleOption(Some(role))) => Some(*role),
        _ => None,
    }
}

/// The roles saved for `id`, if a role list is saved for it.
pub open spec fn saved_role_list(game: Game, id: ControllerID) -> Option<Seq<Role>> {
    match saved_selection(game, id) {
        Some(AbilitySelection::RoleList(v)) => Some(v@),
        _ => None,
    }
}

pub fn get_role_list_selection(game: &Game, id: ControllerID) -> (r: Option<&Vec<Role>>)
    ensures
        r is Some <==> saved_role_list(*game, id) is Some,
        r matches Some(v) ==> saved_role_list(*game, id) == Some(v@),
{
    match get_controller_current_selection(game, id) {
        Some(AbilitySelection::RoleList(v)) => Some(v),
        _ => None,
    }
}

/// The text saved for `id`, if a text is saved for it.
pub open spec fn saved_string(game: Game, id: ControllerID) -> Option<String> {
    match saved_selection(game, id) {
        Some(AbilitySelection::String(s)) => Some(s),
        _ => None,
    }
}

pub fn get_string_selection(game: &Game, id: ControllerID) -> (r: Option<&String>)
    ensures
        r is Some <==> saved_string(*game, id) is Some,
        r matches Some(s) ==> saved_string(*game, id) == Some(*s),
{
    match get_controller_current_selection(game, id) {
        Some(AbilitySelection::String(s)) => Some(s),
        _ => None,
    }
}

} // verus!

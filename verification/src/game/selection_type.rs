//! Inputs by which a role picks outlines of the role list.

use vstd::prelude::*;
use super::role_outline_reference::RoleOutlineReference;
use super::player::PlayerReference;
use super::role::Role;
use super::{Game, data, valid_player};

verus! {

/// Up to two outlines a player has picked.
#[derive(Debug, Clone, Copy, PartialEq, Eq, Structural)]
pub struct TwoRoleOutlineOptionInput(pub Option<RoleOutlineReference>, pub Option<RoleOutlineReference>);

/// An outline pick sent by a player's client, for the role it names.
#[derive(Debug, Clone, Copy, PartialEq, Eq, Structural)]
pub enum AbilityInput {
    Auditor { input: TwoRoleOutlineOptionInput },
    OjoInvestigate { input: TwoRoleOutlineOptionInput },
}

/// One slot of a pick: a new outline replaces the old one unless a result
/// was already given for it; no outline clears the slot.
pub open spec fn pick_slot(
    current: Option<RoleOutlineReference>,
    input: Option<RoleOutlineReference>,
    previously_given: Seq<RoleOutlineReference>,
) -> Option<RoleOutlineReference> {
    match input {
        Some(o) => if previously_given.contains(o) {
            current
        } else {
            Some(o)
        },
        None => None,
    }
}

/// The pick after `input` arrives: each slot as `pick_slot` says, and the
/// second slot cleared when it names the outline of the first.
pub open spec fn next_pick(
    current: TwoRoleOutlineOptionInput,
    input: TwoRoleOutlineOptionInput,
    previously_given: Seq<RoleOutlineReference>,
) -> TwoRoleOutlineOptionInput {
    let first = pick_slot(current.0, input.0, previously_given);
    let second = pick_slot(current.1, input.1, previously_given);
    if first is Some && second == first {
        TwoRoleOutlineOptionInput(first, None)
    } else {
        TwoRoleOutlineOptionInput(first, second)
    }
}

fn contains_outline(v: &Vec<RoleOutlineReference>, o: RoleOutlineReference) -> (r: bool)
    ensures
        r == v@.contains(o),
{
    let mut i: usize = 0;
    while i < v.len()
        invariant
            i <= v@.len(),
            forall|j: int| 0 <= j < i ==> v@[j] != o,
        decreases v@.len() - i,
    {
        if v[i] == o {
            return true;
        }
        i = i + 1;
    }
    false
}

fn pick(
    current: Option<RoleOutlineReference>,
    input: Option<RoleOutlineReference>,
    previously_given: &Vec<RoleOutlineReference>,
) -> (r: Option<RoleOutlineReference>)
    ensures
        r == pick_slot(current, input, previously_given@),
{
    match input {
        Some(o) => if contains_outline(previously_given, o) {
            current
        } else {
            Some(o)
        },
        None => None,
    }
}

/// The role whose player may send `input`.
pub open spec fn picking_role(input: AbilityInput) -> Role {
    match input {
        AbilityInput::Auditor { .. } => Role::Auditor,
        AbilityInput::OjoInvestigate { .. } => Role::Ojo,
    }
}

/// Whether `actor` holds the role that may send `input`.
pub open spec fn may_pick(game: Game, actor: PlayerReference, input: AbilityInput) -> bool {
    valid_player(game, actor) && data(game, actor).role == picking_role(input)
}

impl AbilityInput {
    /// Applies the pick sent by `actor_ref` to the outlines its role has
    /// chosen, given the outlines it already has results for. Both roles
    /// pick the same way; a pick from a player who does not hold the role it
    /// is meant for changes nothing.
    pub fn on_client_message(
        self,
        game: &Game,
        actor_ref: PlayerReference,
        chosen: &mut TwoRoleOutlineOptionInput,
        previously_given: &Vec<RoleOutlineReference>,
    )
        ensures
            may_pick(*game, actor_ref, self) ==> *final(chosen) == next_pick(
                *old(chosen),
                match self {
                    AbilityInput::Auditor { input } => input,
                    AbilityInput::OjoInvestigate { input } => input,
                },
                previously_given@,
            ),
            !may_pick(*game, actor_ref, self) ==> *final(chosen) == *old(chosen),
    {
        let (input, role) = match self {
            AbilityInput::Auditor { input } => (input, Role::Auditor),
            AbilityInput::OjoInvestigate { input } => (input, Role::Ojo),
        };
        if (actor_ref.index as usize) >= game.players.len() || game.players[actor_ref.index as usize].role != role {
            return;
        }
        let first = pick(chosen.0, input.0, previously_given);
        let mut second = pick(chosen.1, input.1, previously_given);
        if first.is_some() && second == first {
            second = None;
        }
        *chosen = TwoRoleOutlineOptionInput(first, second);
    }
}

} // verus!

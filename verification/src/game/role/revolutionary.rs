//! The revolutionary: wins by getting its target, a loyal townsperson, put
//! to the final words; it knows its target's role.

use vstd::prelude::*;
use crate::game::{Game, data, valid_player, game_ok, alive, filtered, filter_players};
use crate::game::player::PlayerReference;
use crate::game::chat::{ChatGroup, ChatMessageVariant};
use crate::game::effect::{Effect, TagSetID};
use crate::game::phase::PhaseType;
use crate::game::visit::Visit;
use crate::game::ability_input::{
    ControllerID, ControllerParameters, AvailableAbilitySelection, saved_boolean, get_boolean_selection,
};
use crate::random::choose_random;
use super::{Role, OnMidnightPriority, GetClientRoleState};
use super::common_role::{spec_first_visit, first_visit, visits_ok};

verus! {

#[derive(Clone, Copy, Debug, PartialEq, Eq, Structural)]
pub enum RevolutionaryTarget {
    Target(PlayerReference),
    Won,
}

#[derive(Clone, Copy, Debug, PartialEq, Eq, Structural)]
pub struct Revolutionary {
    pub target: RevolutionaryTarget,
}

#[derive(Clone, Copy, Debug)]
pub struct ClientRoleState;

impl Default for Revolutionary {
    fn default() -> (r: Self)
        ensures
            r.target == RevolutionaryTarget::Won,
    {
        Revolutionary { target: RevolutionaryTarget::Won }
    }
}

pub open spec fn spec_get_target(state: Revolutionary) -> Option<PlayerReference> {
    match state.target {
        RevolutionaryTarget::Target(p) => Some(p),
        RevolutionaryTarget::Won => None,
    }
}

/// The living loyal townsfolk other than `excluding`, in index order.
pub open spec fn valid_targets(game: Game, excluding: Option<PlayerReference>) -> Seq<PlayerReference> {
    filtered(
        game,
        (Some(true), match excluding {
            Some(e) => seq![e],
            None => Seq::empty(),
        }, None),
    ).filter(|p: PlayerReference| data(game, p).loyalist_for_town)
}

/// Concealing `target` again: its mark goes and its role is hidden.
pub open spec fn conceal_effects(actor: PlayerReference, target: PlayerReference) -> Seq<Effect> {
    seq![
        Effect::RemoveTag { set: TagSetID::RevolutionaryTarget(actor), player: target },
        Effect::ConcealRole { to: actor, player: target },
    ]
}

/// Taking `target` as the new target: the old one is concealed, the new one
/// marked and its role shown.
pub open spec fn set_target_effects(state: Revolutionary, actor: PlayerReference, target: PlayerReference) -> Seq<Effect> {
    (match spec_get_target(state) {
        Some(old) => conceal_effects(actor, old),
        None => Seq::empty(),
    }) + seq![
        Effect::AddTag { set: TagSetID::RevolutionaryTarget(actor), player: target },
        Effect::RevealRole { to: actor, player: target },
    ]
}

fn loyal_targets(game: &Game, excluding: Option<PlayerReference>) -> (r: Vec<PlayerReference>)
    requires
        game_ok(*game),
    ensures
        r@ == valid_targets(*game, excluding),
{
    let exclude = match excluding {
        Some(e) => vec![e],
        None => Vec::new(),
    };
    let living = filter_players(game, Some(true), &exclude, None);
    proof {
        match excluding {
            Some(e) => assert(exclude@ =~= seq![e]),
            None => assert(exclude@ =~= Seq::<PlayerReference>::empty()),
        }
        let f = (Some(true), exclude@, None::<Seq<PlayerReference>>);
        assert forall|j: int| 0 <= j < living@.len() implies valid_player(*game, #[trigger] living@[j]) by {
            crate::game::lemma_filtered_contains(*game, f, game.players@.len() as int, living@[j]);
        }
    }
    let ghost pred = |p: PlayerReference| data(*game, p).loyalist_for_town;
    let mut out: Vec<PlayerReference> = Vec::new();
    let mut i: usize = 0;
    while i < living.len()
        invariant
            i <= living@.len(),
            forall|j: int| 0 <= j < living@.len() ==> valid_player(*game, #[trigger] living@[j]),
            pred == (|p: PlayerReference| data(*game, p).loyalist_for_town),
            out@ == living@.take(i as int).filter(pred),
        decreases living@.len() - i,
    {
        let p = living[i];
        if game.players[p.index as usize].loyalist_for_town {
            out.push(p);
        }
        proof {
            reveal_with_fuel(Seq::filter, 1);
            let t1 = living@.take(i as int + 1);
            assert(t1.drop_last() =~= living@.take(i as int));
            assert(t1.last() == p);
        }
        i = i + 1;
    }
    proof {
        assert(living@.take(i as int) =~= living@);
    }
    out
}

impl Revolutionary {
    pub fn won(&self) -> (r: bool)
        ensures
            r == (self.target == RevolutionaryTarget::Won),
    {
        self.target == RevolutionaryTarget::Won
    }

    pub fn get_target(&self) -> (r: Option<PlayerReference>)
        ensures
            r == spec_get_target(*self),
    {
        match self.target {
            RevolutionaryTarget::Target(p) => Some(p),
            RevolutionaryTarget::Won => None,
        }
    }

    /// A random living loyal townsperson other than `excluding`, or `None`
    /// when there is none.
    pub fn random_valid_target(game: &Game, excluding: Option<PlayerReference>) -> (r: Option<PlayerReference>)
        requires
            game_ok(*game),
        ensures
            r is None <==> valid_targets(*game, excluding).len() == 0,
            r matches Some(p) ==> valid_targets(*game, excluding).contains(p),
    {
        let candidates = loyal_targets(game, excluding);
        match choose_random(candidates.as_slice()) {
            Some(p) => Some(*p),
            None => None,
        }
    }

    pub fn conceal_target(actor_ref: PlayerReference, target: PlayerReference) -> (r: Vec<Effect>)
        ensures
            r@ == conceal_effects(actor_ref, target),
    {
        vec![
            Effect::RemoveTag { set: TagSetID::RevolutionaryTarget(actor_ref), player: target },
            Effect::ConcealRole { to: actor_ref, player: target },
        ]
    }

    pub fn set_target(&self, actor_ref: PlayerReference, target: PlayerReference) -> (r: (Revolutionary, Vec<Effect>))
        ensures
            r.0 == (Revolutionary { target: RevolutionaryTarget::Target(target) }),
            r.1@ == set_target_effects(*self, actor_ref, target),
    {
        let mut out = match self.get_target() {
            Some(old) => Revolutionary::conceal_target(actor_ref, old),
            None => Vec::new(),
        };
        out.push(Effect::AddTag { set: TagSetID::RevolutionaryTarget(actor_ref), player: target });
        out.push(Effect::RevealRole { to: actor_ref, player: target });
        (Revolutionary { target: RevolutionaryTarget::Target(target) }, out)
    }

    /// At the investigative step the revolutionary takes the player it
    /// visits as its new target, unless they died tonight or are not loyal
    /// to the town, which it is told.
    pub fn on_midnight(&self, game: &Game, actor_ref: PlayerReference, priority: OnMidnightPriority) -> (r: (Revolutionary, Vec<Effect>))
        requires
            visits_ok(*game),
            valid_player(*game, actor_ref),
        ensures
            priority == OnMidnightPriority::Investigative && spec_first_visit(*game, actor_ref) is Some ==> {
                let t = spec_first_visit(*game, actor_ref)->0.target;
                if data(*game, t).night_died || !data(*game, t).loyalist_for_town {
                    r.0 == *self && r.1@ == seq![
                        Effect::NightMessage { to: actor_ref, message: ChatMessageVariant::RevolutionaryRefreshFailed },
                    ]
                } else {
                    r.0 == (Revolutionary { target: RevolutionaryTarget::Target(t) }) && r.1@ == set_target_effects(
                        *self,
                        actor_ref,
                        t,
                    )
                }
            },
            !(priority == OnMidnightPriority::Investigative && spec_first_visit(*game, actor_ref) is Some) ==> r.0
                == *self && r.1@.len() == 0,
    {
        if priority != OnMidnightPriority::Investigative {
            return (*self, Vec::new());
        }
        let t = match first_visit(game, actor_ref) {
            Some(v) => v.target,
            None => return (*self, Vec::new()),
        };
        assert(valid_player(*game, crate::game::role::common_role::visits_of(*game, actor_ref)[0].target));
        let d = &game.players[t.index as usize];
        if d.night_died || !d.loyalist_for_town {
            (*self, vec![Effect::NightMessage { to: actor_ref, message: ChatMessageVariant::RevolutionaryRefreshFailed }])
        } else {
            self.set_target(actor_ref, t)
        }
    }

    /// When the revolutionary's living target is put to the final words,
    /// the revolutionary wins, tells everyone, and leaves the town.
    pub fn on_phase_start(&self, game: &Game, actor_ref: PlayerReference) -> (r: (Revolutionary, Vec<Effect>))
        ensures
            ({
                let wins = self.target != RevolutionaryTarget::Won && alive(*game, actor_ref) && game.phase
                    == PhaseType::FinalWords && game.player_on_trial is Some && game.player_on_trial == spec_get_target(*self);
                &&& wins ==> r.0.target == RevolutionaryTarget::Won && r.1@ == seq![
                    Effect::GroupMessage { group: ChatGroup::All, message: ChatMessageVariant::RevolutionaryWon },
                    Effect::LeaveTown { player: actor_ref },
                ]
                &&& !wins ==> r.0 == *self && r.1@.len() == 0
            }),
    {
        if self.target == RevolutionaryTarget::Won || !crate::game::player_alive(game, actor_ref) {
            return (*self, Vec::new());
        }
        if game.phase == PhaseType::FinalWords {
            match game.player_on_trial {
                Some(p) => {
                    if Some(p) == self.get_target() {
                        return (
                            Revolutionary { target: RevolutionaryTarget::Won },
                            vec![
                                Effect::GroupMessage { group: ChatGroup::All, message: ChatMessageVariant::RevolutionaryWon },
                                Effect::LeaveTown { player: actor_ref },
                            ],
                        );
                    }
                },
                None => {},
            }
        }
        (*self, Vec::new())
    }

    /// A new revolutionary takes a random living loyal townsperson as its
    /// target, if there is one.
    pub fn on_role_creation(&self, game: &Game, actor_ref: PlayerReference) -> (r: (Revolutionary, Vec<Effect>))
        requires
            game_ok(*game),
        ensures
            valid_targets(*game, None).len() == 0 ==> r.0 == *self && r.1@.len() == 0,
            valid_targets(*game, None).len() > 0 ==> exists|t: PlayerReference|
                valid_targets(*game, None).contains(t) && r.0 == (Revolutionary { target: RevolutionaryTarget::Target(t) })
                    && r.1@ == set_target_effects(*self, actor_ref, t),
    {
        match Revolutionary::random_valid_target(game, None) {
            Some(t) => self.set_target(actor_ref, t),
            None => (*self, Vec::new()),
        }
    }

    /// A revolutionary leaving the role conceals its target again.
    pub fn before_role_switch(&self, actor_ref: PlayerReference, player: PlayerReference) -> (r: Vec<Effect>)
        ensures
            r@ == if actor_ref == player && spec_get_target(*self) is Some {
                conceal_effects(actor_ref, spec_get_target(*self)->0)
            } else {
                Seq::empty()
            },
    {
        if actor_ref != player {
            return Vec::new();
        }
        match self.target {
            RevolutionaryTarget::Target(old) => Revolutionary::conceal_target(actor_ref, old),
            RevolutionaryTarget::Won => Vec::new(),
        }
    }

    /// A yes-or-no choice to look for a new target, grayed out once won.
    pub fn controller_parameters_map(&self, actor_ref: PlayerReference) -> (r: ControllerParameters)
        ensures
            r.id == ControllerID::role(actor_ref, Role::Revolutionary, 0),
            r.available == AvailableAbilitySelection::Boolean,
            r.grayed_out == (self.target == RevolutionaryTarget::Won),
            r.allowed_players@ == seq![actor_ref],
    {
        ControllerParameters {
            id: ControllerID::role(actor_ref, Role::Revolutionary, 0),
            available: AvailableAbilitySelection::Boolean,
            grayed_out: self.won(),
            night_typical: false,
            reset_on_phase_start: None,
            dont_save: false,
            default_selection: None,
            allowed_players: vec![actor_ref],
        }
    }

    /// Looking for a new target visits a random living loyal townsperson
    /// other than the current target, or any when there is no other.
    pub fn convert_selection_to_visits(&self, game: &Game, actor_ref: PlayerReference) -> (r: Vec<Visit>)
        requires
            game_ok(*game),
        ensures
            saved_boolean(*game, ControllerID::role(actor_ref, Role::Revolutionary, 0)) != Some(true) ==> r@.len() == 0,
            saved_boolean(*game, ControllerID::role(actor_ref, Role::Revolutionary, 0)) == Some(true) ==> {
                let others = valid_targets(*game, spec_get_target(*self));
                let all = valid_targets(*game, None);
                &&& (others.len() == 0 && all.len() == 0) ==> r@.len() == 0
                &&& (others.len() > 0 || all.len() > 0) ==> r@.len() == 1 && r@[0].visitor == actor_ref && !r@[0].attack
                    && r@[0].role == Role::Revolutionary && r@[0].id == 0 && (if others.len() > 0 {
                    others.contains(r@[0].target)
                } else {
                    all.contains(r@[0].target)
                })
            },
    {
        match get_boolean_selection(game, ControllerID::role(actor_ref, Role::Revolutionary, 0)) {
            Some(true) => {},
            _ => return Vec::new(),
        }
        let t = match Revolutionary::random_valid_target(game, self.get_target()) {
            Some(t) => Some(t),
            None => Revolutionary::random_valid_target(game, None),
        };
        match t {
            Some(t) => vec![Visit { visitor: actor_ref, target: t, attack: false, role: Role::Revolutionary, id: 0 }],
            None => Vec::new(),
        }
    }
}

impl GetClientRoleState<ClientRoleState> for Revolutionary {
    fn get_client_role_state(self, game: &Game, actor_ref: PlayerReference) -> ClientRoleState {
        ClientRoleState
    }
}

} // verus!

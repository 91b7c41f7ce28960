//! The pyrolisk: burns everyone who visits it, or, when none burns, the
//! player it visits; it learns the role and will of those it burns.

use vstd::prelude::*;
use crate::vec_set::VecSet;
use crate::game::{Game, data, valid_player, game_ok, alive};
use crate::game::player::PlayerReference;
use crate::game::chat::ChatMessageVariant;
use crate::game::effect::{Effect, GraveKiller};
use crate::game::attack_power::{AttackPower, pierces};
use crate::game::visit::Visit;
use crate::game::ability_input::{ControllerID, ControllerParameters, AvailableAbilitySelection};
use super::{Role, Priority, GetClientRoleState};
use super::mortician::is_alibi;
use super::common_role::{spec_first_visit, first_visit, visitors, visitors_of, visits_ok, selection_visits, convert_controller_selection_to_visits};

verus! {

#[derive(Debug)]
pub struct Pyrolisk {
    /// The players burnt tonight, whose graves will be obscured.
    pub tagged_for_obscure: VecSet<PlayerReference>,
}

#[derive(Clone, Copy, Debug)]
pub struct ClientRoleState;

impl Default for Pyrolisk {
    fn default() -> (r: Self)
        ensures
            r.tagged_for_obscure@.len() == 0,
    {
        Pyrolisk { tagged_for_obscure: VecSet::new() }
    }
}

/// An armor-piercing attack on `p` succeeds when it gets through their
/// defense tonight.
pub open spec fn burns(game: Game, p: PlayerReference) -> bool {
    valid_player(game, p) && pierces(AttackPower::ArmorPiercing, data(game, p).defense)
}

pub open spec fn burn(actor: PlayerReference, p: PlayerReference) -> Effect {
    Effect::Attack {
        attacker: actor,
        target: p,
        killer: GraveKiller::Role(Role::Pyrolisk),
        power: AttackPower::ArmorPiercing,
        leave_death_note: true,
    }
}

/// The living visitors other than the pyrolisk itself.
pub open spec fn burn_targets(game: Game, actor: PlayerReference) -> Seq<PlayerReference> {
    visitors(game, actor).filter(|p: PlayerReference| burnable(game, actor, p))
}

pub open spec fn burnable(game: Game, actor: PlayerReference, p: PlayerReference) -> bool {
    alive(game, p) && p != actor
}

/// `set` with `p` added at the end unless it is there.
pub open spec fn set_insert(set: Seq<PlayerReference>, p: PlayerReference) -> Seq<PlayerReference> {
    if set.contains(p) {
        set
    } else {
        set.push(p)
    }
}

/// The burnt among `ps` added to `set` in order.
pub open spec fn add_burnt(game: Game, set: Seq<PlayerReference>, ps: Seq<PlayerReference>) -> Seq<PlayerReference>
    decreases ps.len(),
{
    if ps.len() == 0 {
        set
    } else {
        let before = add_burnt(game, set, ps.drop_last());
        if burns(game, ps.last()) {
            set_insert(before, ps.last())
        } else {
            before
        }
    }
}

/// Whether any of `ps` burns.
pub open spec fn any_burns(game: Game, ps: Seq<PlayerReference>) -> bool {
    exists|i: int| 0 <= i < ps.len() && burns(game, #[trigger] ps[i])
}

impl Pyrolisk {
    /// At the kill step after the first night, the pyrolisk attacks every
    /// living visitor; when none of those attacks gets through, it attacks
    /// the player it visits. Those it burns are marked for obscuring.
    pub fn do_night_action(self, game: &Game, actor_ref: PlayerReference, priority: Priority) -> (r: (Pyrolisk, Vec<Effect>))
        requires
            game_ok(*game),
            valid_player(*game, actor_ref),
        ensures
            ({
                let ts = burn_targets(*game, actor_ref);
                let attacks = ts.map_values(|p: PlayerReference| burn(actor_ref, p));
                let marked = add_burnt(*game, self.tagged_for_obscure@, ts);
                if priority != Priority::Kill || game.day_number <= 1 {
                    r.0.tagged_for_obscure@ == self.tagged_for_obscure@ && r.1@.len() == 0
                } else if any_burns(*game, ts) {
                    r.0.tagged_for_obscure@ == marked && r.1@ =~= attacks
                } else {
                    match spec_first_visit(*game, actor_ref) {
                        Some(v) => r.0.tagged_for_obscure@ == (if burns(*game, v.target) {
                            set_insert(marked, v.target)
                        } else {
                            marked
                        }) && r.1@ =~= attacks.push(burn(actor_ref, v.target)),
                        None => r.0.tagged_for_obscure@ == marked && r.1@ =~= attacks,
                    }
                }
            }),
    {
        let mut out: Vec<Effect> = Vec::new();
        if priority != Priority::Kill || game.day_number <= 1 {
            return (self, out);
        }
        let mut tagged = self.tagged_for_obscure;
        let ghost start = tagged@;
        let vis = visitors_of(game, actor_ref);
        let ghost pred = |p: PlayerReference| burnable(*game, actor_ref, p);
        let ghost ts: Seq<PlayerReference> = Seq::empty();
        let mut killed = false;
        let mut i: usize = 0;
        while i < vis.len()
            invariant
                i <= vis@.len(),
                vis@ == visitors(*game, actor_ref),
                pred == (|p: PlayerReference| burnable(*game, actor_ref, p)),
                ts == vis@.take(i as int).filter(pred),
                out@ =~= ts.map_values(|p: PlayerReference| burn(actor_ref, p)),
                tagged@ == add_burnt(*game, start, ts),
                killed == any_burns(*game, ts),
            decreases vis@.len() - i,
        {
            let p = vis[i];
            let ghost prev = ts;
            if crate::game::player_alive(game, p) && p != actor_ref {
                out.push(
                    Effect::Attack {
                        attacker: actor_ref,
                        target: p,
                        killer: GraveKiller::Role(Role::Pyrolisk),
                        power: AttackPower::ArmorPiercing,
                        leave_death_note: true,
                    },
                );
                if AttackPower::ArmorPiercing.can_pierce(game.players[p.index as usize].defense) {
                    tagged.insert(p);
                    killed = true;
                }
            }
            proof {
                reveal_with_fuel(Seq::filter, 1);
                let t1 = vis@.take(i as int + 1);
                assert(t1.drop_last() =~= vis@.take(i as int));
                assert(t1.last() == p);
                ts = t1.filter(pred);
                if pred(p) {
                    assert(ts == prev.push(p));
                    assert(ts.drop_last() =~= prev);
                    assert(ts.last() == p);
                    if burns(*game, p) {
                        assert(burns(*game, ts[ts.len() - 1]));
                    } else {
                        assert forall|k: int| 0 <= k < ts.len() && burns(*game, #[trigger] ts[k]) implies k < prev.len() by {}
                        if any_burns(*game, ts) {
                            let k = choose|k: int| 0 <= k < ts.len() && burns(*game, #[trigger] ts[k]);
                            assert(prev[k] == ts[k]);
                        }
                    }
                }
            }
            i = i + 1;
        }
        proof {
            assert(vis@.take(i as int) =~= vis@);
            assert(ts == burn_targets(*game, actor_ref));
        }
        if !killed {
            match first_visit(game, actor_ref) {
                Some(v) => {
                    out.push(
                        Effect::Attack {
                            attacker: actor_ref,
                            target: v.target,
                            killer: GraveKiller::Role(Role::Pyrolisk),
                            power: AttackPower::ArmorPiercing,
                            leave_death_note: true,
                        },
                    );
                    if (v.target.index as usize) < game.players.len()
                        && AttackPower::ArmorPiercing.can_pierce(game.players[v.target.index as usize].defense) {
                        tagged.insert(v.target);
                    }
                },
                None => {},
            }
        }
        (Pyrolisk { tagged_for_obscure: tagged }, out)
    }

    /// The pyrolisk picks another player at night, insiders allowed, from
    /// the second night on.
    pub fn controller_parameters_map(&self, game: &Game, actor_ref: PlayerReference) -> (r: ControllerParameters)
        ensures
            r.id == ControllerID::role(actor_ref, Role::Pyrolisk, 0),
            r.available == (AvailableAbilitySelection::SinglePlayerTypical {
                can_select_self: false,
                can_select_insiders: true,
            }),
            r.night_typical,
            r.grayed_out == (game.day_number <= 1),
    {
        ControllerParameters {
            id: ControllerID::role(actor_ref, Role::Pyrolisk, 0),
            available: AvailableAbilitySelection::SinglePlayerTypical {
                can_select_self: false,
                can_select_insiders: true,
            },
            grayed_out: game.day_number <= 1,
            night_typical: true,
            reset_on_phase_start: None,
            dont_save: false,
            default_selection: None,
            allowed_players: vec![actor_ref],
        }
    }

    pub fn convert_selection_to_visits(&self, game: &Game, actor_ref: PlayerReference) -> (r: Vec<Visit>)
        ensures
            r@ == selection_visits(*game, actor_ref, Role::Pyrolisk, 0, true),
    {
        convert_controller_selection_to_visits(game, actor_ref, Role::Pyrolisk, 0, true)
    }

    /// When a grave is dug for a player it burnt (or for itself), a living
    /// pyrolisk (or one whose own grave it is) learns their role and will,
    /// and the grave is obscured.
    pub fn on_grave_added(&self, game: &Game, actor_ref: PlayerReference, player: PlayerReference) -> (r: Vec<Effect>)
        requires
            valid_player(*game, actor_ref),
            valid_player(*game, player),
        ensures
            ({
                let shown = (alive(*game, actor_ref) || player == actor_ref) && (self.tagged_for_obscure@.contains(player)
                    || player == actor_ref);
                &&& shown ==> r@.len() == 2 && is_alibi(*game, actor_ref, player, r@[0]) && r@[1] == (Effect::ObscureGrave {
                    player,
                })
                &&& !shown ==> r@.len() == 0
            }),
    {
        let mut out: Vec<Effect> = Vec::new();
        if !crate::game::player_alive(game, actor_ref) && player != actor_ref {
            return out;
        }
        if !self.tagged_for_obscure.contains(&player) && player != actor_ref {
            return out;
        }
        let d = &game.players[player.index as usize];
        out.push(
            Effect::PrivateMessage {
                to: actor_ref,
                message: ChatMessageVariant::PlayerRoleAndAlibi { player, role: d.role, will: d.will.clone() },
            },
        );
        out.push(Effect::ObscureGrave { player });
        out
    }

    /// Each phase starts with no one marked.
    pub fn on_phase_start(self) -> (r: Pyrolisk)
        ensures
            r.tagged_for_obscure@.len() == 0,
    {
        Pyrolisk { tagged_for_obscure: VecSet::new() }
    }
}

impl GetClientRoleState<ClientRoleState> for Pyrolisk {
    fn get_client_role_state(self, game: &Game, actor_ref: PlayerReference) -> ClientRoleState {
        ClientRoleState
    }
}

} // verus!

//! The retrainer: picks a mafia backup who takes over its role when it
//! dies, and retrains the backup into other mafia support roles.

use vstd::prelude::*;
use crate::game::{Game, data, valid_player, game_ok, alive};
use crate::game::player::PlayerReference;
use crate::game::chat::{ChatGroup, ChatMessageVariant};
use crate::game::effect::Effect;
use crate::game::phase::PhaseType;
use crate::game::tag::Tag;
use crate::game::role_list::{RoleSet, role_set_roles};
use crate::game::visit::Visit;
use super::Role;

verus! {

#[derive(Clone, Copy, Debug, PartialEq, Eq, Structural)]
pub struct Retrainer {
    pub backup: Option<PlayerReference>,
    pub retrains_remaining: u8,
}

impl Default for Retrainer {
    fn default() -> (r: Self)
        ensures
            r.backup is None,
            r.retrains_remaining == 2,
    {
        Retrainer { backup: None, retrains_remaining: 2 }
    }
}

/// The players among the first `n` who are (`mafia`) or are not in the
/// revealed mafia, in index order.
pub open spec fn mafia_side_upto(game: Game, mafia: bool, n: int) -> Seq<PlayerReference>
    decreases n,
{
    if n <= 0 {
        Seq::empty()
    } else {
        let p = PlayerReference { index: (n - 1) as u8 };
        if data(game, p).in_mafia == mafia {
            mafia_side_upto(game, mafia, n - 1).push(p)
        } else {
            mafia_side_upto(game, mafia, n - 1)
        }
    }
}

pub open spec fn mafia_side(game: Game, mafia: bool) -> Seq<PlayerReference> {
    mafia_side_upto(game, mafia, game.players@.len() as int)
}

/// The backup after the retrainer picks `target`: picking the backup again
/// clears it.
pub open spec fn picked_backup(backup: Option<PlayerReference>, target: PlayerReference) -> Option<PlayerReference> {
    if backup == Some(target) {
        None
    } else {
        Some(target)
    }
}

/// The effects of a new backup: the mafia chat hears of it, every mafia
/// member's backup tags are cleared, and each then sees the tag on the new
/// backup.
pub open spec fn backup_effects(game: Game, backup: Option<PlayerReference>) -> Seq<Effect> {
    let mafia = mafia_side(game, true);
    seq![
        Effect::GroupMessage {
            group: ChatGroup::Mafia,
            message: ChatMessageVariant::GodfatherBackup {
                backup: match backup {
                    Some(p) => Some(p.index),
                    None => None,
                },
            },
        },
    ] + mafia.map_values(|p: PlayerReference| Effect::RemoveTagEverywhere { viewer: p, tag: Tag::GodfatherBackup })
        + match backup {
        Some(b) => mafia.map_values(|p: PlayerReference| Effect::PlayerTag { viewer: p, player: b, tag: Tag::GodfatherBackup }),
        None => Seq::empty(),
    }
}

fn mafia_side_players(game: &Game, mafia: bool) -> (r: Vec<PlayerReference>)
    requires
        game_ok(*game),
    ensures
        r@ == mafia_side(*game, mafia),
{
    let mut out: Vec<PlayerReference> = Vec::new();
    let mut i: usize = 0;
    while i < game.players.len()
        invariant
            i <= game.players@.len(),
            game_ok(*game),
            out@ == mafia_side_upto(*game, mafia, i as int),
        decreases game.players@.len() - i,
    {
        if game.players[i].in_mafia == mafia {
            out.push(PlayerReference { index: i as u8 });
        }
        i = i + 1;
    }
    out
}

fn untag_all(ps: &Vec<PlayerReference>, out: &mut Vec<Effect>)
    ensures
        final(out)@ == old(out)@ + ps@.map_values(|p: PlayerReference| Effect::RemoveTagEverywhere { viewer: p, tag: Tag::GodfatherBackup }),
{
    let ghost start = old(out)@;
    let mut i: usize = 0;
    while i < ps.len()
        invariant
            i <= ps@.len(),
            out@ =~= start + ps@.map_values(|p: PlayerReference| Effect::RemoveTagEverywhere { viewer: p, tag: Tag::GodfatherBackup }).take(i as int),
        decreases ps@.len() - i,
    {
        out.push(Effect::RemoveTagEverywhere { viewer: ps[i], tag: Tag::GodfatherBackup });
        i = i + 1;
    }
    proof {
        assert(ps@.map_values(|p: PlayerReference| Effect::RemoveTagEverywhere { viewer: p, tag: Tag::GodfatherBackup }).take(i as int)
            =~= ps@.map_values(|p: PlayerReference| Effect::RemoveTagEverywhere { viewer: p, tag: Tag::GodfatherBackup }));
    }
}

impl Retrainer {
    /// By day the retrainer picks a backup, or clears it by picking it again.
    pub fn do_day_action(&self, game: &Game, actor_ref: PlayerReference, target_ref: PlayerReference) -> (r: (Retrainer, Vec<Effect>))
        requires
            game_ok(*game),
        ensures
            r.0 == (Retrainer { backup: picked_backup(self.backup, target_ref), retrains_remaining: self.retrains_remaining }),
            r.1@ == backup_effects(*game, picked_backup(self.backup, target_ref)),
    {
        let backup = if self.backup == Some(target_ref) {
            None
        } else {
            Some(target_ref)
        };
        let mut out: Vec<Effect> = Vec::new();
        out.push(
            Effect::GroupMessage {
                group: ChatGroup::Mafia,
                message: ChatMessageVariant::GodfatherBackup {
                    backup: match backup {
                        Some(p) => Some(p.index),
                        None => None,
                    },
                },
            },
        );
        let mafia = mafia_side_players(game, true);
        untag_all(&mafia, &mut out);
        match backup {
            Some(b) => {
                let ghost start = out@;
                let mut i: usize = 0;
                while i < mafia.len()
                    invariant
                        i <= mafia@.len(),
                        out@ =~= start + mafia@.map_values(
                            |p: PlayerReference| Effect::PlayerTag { viewer: p, player: b, tag: Tag::GodfatherBackup },
                        ).take(i as int),
                    decreases mafia@.len() - i,
                {
                    out.push(Effect::PlayerTag { viewer: mafia[i], player: b, tag: Tag::GodfatherBackup });
                    i = i + 1;
                }
                proof {
                    assert(mafia@.map_values(|p: PlayerReference| Effect::PlayerTag { viewer: p, player: b, tag: Tag::GodfatherBackup }).take(
                        i as int,
                    ) =~= mafia@.map_values(|p: PlayerReference| Effect::PlayerTag { viewer: p, player: b, tag: Tag::GodfatherBackup }));
                }
            },
            None => {
                proof {
                    assert(out@ =~= backup_effects(*game, backup));
                }
            },
        }
        (Retrainer { backup, retrains_remaining: self.retrains_remaining }, out)
    }

    /// The retrainer may pick, by day, another living player holding a mafia
    /// role in the revealed mafia.
    pub fn can_day_target(&self, game: &Game, actor_ref: PlayerReference, target_ref: PlayerReference) -> (r: bool)
        ensures
            r == (actor_ref != target_ref && alive(*game, actor_ref) && alive(*game, target_ref) && role_set_roles(
                RoleSet::Mafia,
            ).contains(data(*game, target_ref).role) && data(*game, target_ref).in_mafia),
    {
        if actor_ref == target_ref || !crate::game::player_alive(game, actor_ref) || !crate::game::player_alive(game, target_ref) {
            return false;
        }
        let d = &game.players[target_ref.index as usize];
        RoleSet::Mafia.get_roles().contains(&d.role) && d.in_mafia
    }

    /// The retrainer's day picks become attacking visits.
    pub fn convert_selection_to_visits(&self, actor_ref: PlayerReference, target_refs: &Vec<PlayerReference>) -> (r: Vec<Visit>)
        ensures
            r@ == target_refs@.map_values(
                |t: PlayerReference| Visit { visitor: actor_ref, target: t, attack: true, role: Role::Retrainer, id: 0 },
            ),
    {
        let mut out: Vec<Visit> = Vec::new();
        let mut i: usize = 0;
        while i < target_refs.len()
            invariant
                i <= target_refs@.len(),
                out@ =~= target_refs@.map_values(
                    |t: PlayerReference| Visit { visitor: actor_ref, target: t, attack: true, role: Role::Retrainer, id: 0 },
                ).take(i as int),
            decreases target_refs@.len() - i,
        {
            out.push(Visit { visitor: actor_ref, target: target_refs[i], attack: true, role: Role::Retrainer, id: 0 });
            i = i + 1;
        }
        proof {
            assert(target_refs@.map_values(
                |t: PlayerReference| Visit { visitor: actor_ref, target: t, attack: true, role: Role::Retrainer, id: 0 },
            ).take(i as int) =~= target_refs@.map_values(
                |t: PlayerReference| Visit { visitor: actor_ref, target: t, attack: true, role: Role::Retrainer, id: 0 },
            ));
        }
        out
    }

    /// When the retrainer dies with a backup, the backup tags of those
    /// outside the mafia are cleared and a living backup becomes the
    /// retrainer; when the backup dies, the retrainer has none.
    pub fn on_any_death(&self, game: &Game, actor_ref: PlayerReference, dead_player_ref: PlayerReference) -> (r: (Retrainer, Vec<Effect>))
        requires
            game_ok(*game),
        ensures
            actor_ref == dead_player_ref ==> match self.backup {
                Some(b) => r.0 == (Retrainer { backup: None, retrains_remaining: self.retrains_remaining }) && r.1@ == mafia_side(
                    *game,
                    false,
                ).map_values(|p: PlayerReference| Effect::RemoveTagEverywhere { viewer: p, tag: Tag::GodfatherBackup }) + if alive(
                    *game,
                    b,
                ) {
                    seq![Effect::BecomeRetrainer { target: b, retrains_remaining: self.retrains_remaining }]
                } else {
                    Seq::empty()
                },
                None => r.0 == *self && r.1@.len() == 0,
            },
            actor_ref != dead_player_ref ==> r.1@.len() == 0 && r.0 == if self.backup == Some(dead_player_ref) {
                Retrainer { backup: None, retrains_remaining: self.retrains_remaining }
            } else {
                *self
            },
    {
        let mut out: Vec<Effect> = Vec::new();
        if actor_ref == dead_player_ref {
            let b = match self.backup {
                Some(b) => b,
                None => return (*self, out),
            };
            let outsiders = mafia_side_players(game, false);
            untag_all(&outsiders, &mut out);
            if crate::game::player_alive(game, b) {
                out.push(Effect::BecomeRetrainer { target: b, retrains_remaining: self.retrains_remaining });
            }
            (Retrainer { backup: None, retrains_remaining: self.retrains_remaining }, out)
        } else if self.backup == Some(dead_player_ref) {
            (Retrainer { backup: None, retrains_remaining: self.retrains_remaining }, out)
        } else {
            (*self, out)
        }
    }

    /// By day a living retrainer with retrains left turns its backup into
    /// another mafia support role (or the mafia support wildcard), spending
    /// a retrain; a role the backup already has changes nothing.
    pub fn retrain(&self, game: &Game, actor_ref: PlayerReference, role: Role) -> (r: (Retrainer, Vec<Effect>))
        ensures
            ({
                let allowed = (role_set_roles(RoleSet::MafiaSupport).contains(role) || role == Role::MafiaSupportWildcard)
                    && alive(*game, actor_ref) && game.phase != PhaseType::Night;
                if allowed && self.backup is Some && self.retrains_remaining > 0 && valid_player(*game, self.backup->0)
                    && data(*game, self.backup->0).role != role {
                    r.0 == (Retrainer { backup: self.backup, retrains_remaining: (self.retrains_remaining - 1) as u8 })
                        && r.1@ == seq![Effect::SwitchRole { target: self.backup->0, role }]
                } else {
                    r.0 == *self && r.1@.len() == 0
                }
            }),
    {
        let mut out: Vec<Effect> = Vec::new();
        if (!RoleSet::MafiaSupport.get_roles().contains(&role) && role != Role::MafiaSupportWildcard)
            || !crate::game::player_alive(game, actor_ref) || game.phase == PhaseType::Night {
            return (*self, out);
        }
        match self.backup {
            Some(b) => {
                if self.retrains_remaining > 0 && (b.index as usize) < game.players.len()
                    && game.players[b.index as usize].role != role {
                    out.push(Effect::SwitchRole { target: b, role });
                    return (Retrainer { backup: self.backup, retrains_remaining: self.retrains_remaining - 1 }, out);
                }
                (*self, out)
            },
            None => (*self, out),
        }
    }
}

} // verus!

//! Santa Claus: puts players on the nice list and the naughty list, one list
//! each night in turn.

use vstd::prelude::*;
use crate::game::{Game, data, valid_player, game_ok, filtered, filter_players, PlayerFilter};
use crate::game::player::PlayerReference;
use crate::game::chat::ChatMessageVariant;
use crate::game::effect::Effect;
use crate::game::attack_power::{AttackPower, pierces};
use crate::game::game_conclusion::GameConclusion;
use crate::game::phase::PhaseType;
use crate::game::visit::Visit;
use crate::game::ability_input::{ControllerID, ControllerParameters, AvailableAbilitySelection};
use super::{Role, Priority};
use super::common_role::{visit_targets, night_targets, selection_visits, convert_controller_selection_to_visits};

verus! {

#[derive(Clone, Copy, Debug, PartialEq, Eq, Structural)]
pub enum SantaListKind {
    Naughty,
    Nice,
}

impl Default for SantaListKind {
    fn default() -> (r: Self)
        ensures
            r == SantaListKind::Nice,
    {
        SantaListKind::Nice
    }
}

#[derive(Clone, Copy, Debug, PartialEq, Eq, Structural)]
pub struct SantaClaus {
    pub ability_used_last_night: Option<SantaListKind>,
}

impl Default for SantaClaus {
    fn default() -> (r: Self)
        ensures
            r.ability_used_last_night is None,
    {
        SantaClaus { ability_used_last_night: None }
    }
}

/// After a night of the nice list comes one of the naughty list; otherwise
/// the nice list.
pub open spec fn next_ability(last: Option<SantaListKind>) -> SantaListKind {
    match last {
        Some(SantaListKind::Nice) => SantaListKind::Naughty,
        _ => SantaListKind::Nice,
    }
}

pub open spec fn list_conclusion(kind: SantaListKind) -> GameConclusion {
    match kind {
        SantaListKind::Nice => GameConclusion::NiceList,
        SantaListKind::Naughty => GameConclusion::NaughtyList,
    }
}

/// Whether Santa can put `t` on a list now, with `added` already put on one
/// tonight: `t` is another living player whose win condition is a list of
/// conclusions, not on either list, and whose defense an armor-piercing
/// attack would get through.
pub open spec fn can_list(game: Game, actor: PlayerReference, added: Seq<PlayerReference>, t: PlayerReference) -> bool {
    &&& valid_player(game, t)
    &&& data(game, t).win_condition_is_conclusion_list
    &&& pierces(AttackPower::ArmorPiercing, data(game, t).defense)
    &&& actor != t
    &&& data(game, t).alive
    &&& !data(game, t).on_nice_list
    &&& !data(game, t).on_naughty_list
    &&& !added.contains(t)
}

/// The players who hold the role `Krampus`, in index order.
pub open spec fn krampuses_upto(game: Game, n: int) -> Seq<PlayerReference>
    decreases n,
{
    if n <= 0 {
        Seq::empty()
    } else {
        let p = PlayerReference { index: (n - 1) as u8 };
        let before = krampuses_upto(game, n - 1);
        if data(game, p).role == Role::Krampus {
            before.push(p)
        } else {
            before
        }
    }
}

/// The effects of putting `t` on the list `kind`: the list joins `t`'s
/// conclusions, `t` is told, and for the naughty list every Krampus hears of it.
pub open spec fn listing_effects(game: Game, kind: SantaListKind, t: PlayerReference) -> Seq<Effect> {
    let base = seq![
        Effect::AddWinConclusion { player: t, conclusion: list_conclusion(kind) },
        Effect::NightMessage {
            to: t,
            message: match kind {
                SantaListKind::Nice => ChatMessageVariant::AddedToNiceList,
                SantaListKind::Naughty => ChatMessageVariant::AddedToNaughtyList,
            },
        },
    ];
    match kind {
        SantaListKind::Nice => base,
        SantaListKind::Naughty => base + krampuses_upto(game, game.players@.len() as int).map_values(
            |k: PlayerReference|
                Effect::NightMessage {
                    to: k,
                    message: ChatMessageVariant::SantaAddedPlayerToNaughtyList { player: t },
                },
        ),
    }
}

/// Santa's visits handled in order: whether one succeeded, who was put on
/// the list, and the effects.
pub open spec fn santa_run(game: Game, actor: PlayerReference, kind: SantaListKind, targets: Seq<PlayerReference>) -> (bool, Seq<PlayerReference>, Seq<Effect>)
    decreases targets.len(),
{
    if targets.len() == 0 {
        (false, Seq::empty(), Seq::empty())
    } else {
        let (used, added, effects) = santa_run(game, actor, kind, targets.drop_last());
        let t = targets.last();
        if can_list(game, actor, added, t) {
            (true, added.push(t), effects + listing_effects(game, kind, t))
        } else {
            (
                used,
                added,
                effects.push(Effect::NightMessage { to: actor, message: ChatMessageVariant::YourConvertFailed }),
            )
        }
    }
}

/// Santa's night: only the convert step does anything.
pub open spec fn santa_night(game: Game, actor: PlayerReference, state: SantaClaus, priority: Priority) -> (SantaClaus, Seq<Effect>) {
    if priority != Priority::Convert {
        (state, Seq::empty())
    } else {
        let kind = next_ability(state.ability_used_last_night);
        let (used, _added, effects) = santa_run(game, actor, kind, visit_targets(game, actor));
        (if used { SantaClaus { ability_used_last_night: Some(kind) } } else { state }, effects)
    }
}

/// The players whose win conditions list `conclusion`, in index order.
pub open spec fn listers_filter(game: Game, nice: bool) -> Seq<PlayerReference> {
    filtered(game, (None, Seq::empty(), None)).filter(|p: PlayerReference| is_lister(game, nice, p))
}

pub open spec fn is_lister(game: Game, nice: bool, p: PlayerReference) -> bool {
    if nice {
        data(game, p).on_nice_list
    } else {
        data(game, p).on_naughty_list
    }
}

fn krampuses(game: &Game) -> (r: Vec<PlayerReference>)
    requires
        game_ok(*game),
    ensures
        r@ == krampuses_upto(*game, game.players@.len() as int),
{
    let mut out: Vec<PlayerReference> = Vec::new();
    let mut i: usize = 0;
    while i < game.players.len()
        invariant
            i <= game.players@.len(),
            game_ok(*game),
            out@ == krampuses_upto(*game, i as int),
        decreases game.players@.len() - i,
    {
        if game.players[i].role == Role::Krampus {
            out.push(PlayerReference { index: i as u8 });
        }
        i = i + 1;
    }
    out
}

/// The players Santa may pick: every other living player, in index order.
fn get_selectable_players(game: &Game, actor_ref: PlayerReference) -> (r: Vec<PlayerReference>)
    requires
        game_ok(*game),
    ensures
        r@ == filtered(*game, (Some(true), seq![actor_ref], None)),
{
    let exclude = vec![actor_ref];
    let available_players = filter_players(game, Some(true), &exclude, None);
    proof {
        assert(exclude@ =~= seq![actor_ref]);
    }
    available_players
}

fn contains_player(v: &Vec<PlayerReference>, p: PlayerReference) -> (r: bool)
    ensures
        r == v@.contains(p),
{
    crate::game::vec_contains(v, p)
}

fn can_list_exec(game: &Game, actor: PlayerReference, added: &Vec<PlayerReference>, t: PlayerReference) -> (r: bool)
    ensures
        r == can_list(*game, actor, added@, t),
{
    if (t.index as usize) >= game.players.len() {
        return false;
    }
    let d = &game.players[t.index as usize];
    d.win_condition_is_conclusion_list && AttackPower::ArmorPiercing.can_pierce(d.defense) && actor != t
        && d.alive && !d.on_nice_list && !d.on_naughty_list && !contains_player(added, t)
}

/// Whether `e`, if it adds a conclusion to a player's win condition, adds
/// it to a living player other than Santa who is on neither list and whose
/// win condition is a list of conclusions.
pub open spec fn lists_only_eligible(game: Game, actor: PlayerReference, e: Effect) -> bool {
    match e {
        Effect::AddWinConclusion { player, .. } => valid_player(game, player) && player != actor
            && data(game, player).alive && data(game, player).win_condition_is_conclusion_list
            && !data(game, player).on_nice_list && !data(game, player).on_naughty_list,
        _ => true,
    }
}

proof fn lemma_santa_run_eligible(game: Game, actor: PlayerReference, kind: SantaListKind, targets: Seq<PlayerReference>)
    ensures
        forall|i: int|
            0 <= i < santa_run(game, actor, kind, targets).2.len() ==> lists_only_eligible(
                game,
                actor,
                #[trigger] santa_run(game, actor, kind, targets).2[i],
            ),
    decreases targets.len(),
{
    if targets.len() > 0 {
        lemma_santa_run_eligible(game, actor, kind, targets.drop_last());
        let prev = santa_run(game, actor, kind, targets.drop_last());
        let t = targets.last();
        let effects = santa_run(game, actor, kind, targets).2;
        if can_list(game, actor, prev.1, t) {
            let l = listing_effects(game, kind, t);
            assert(effects == prev.2 + l);
            assert forall|i: int| 0 <= i < effects.len() implies lists_only_eligible(game, actor, #[trigger] effects[i]) by {
                if i >= prev.2.len() {
                    let j = i - prev.2.len();
                    assert(effects[i] == l[j]);
                    if j >= 2 {
                        assert(l[j] is NightMessage);
                    }
                } else {
                    assert(effects[i] == prev.2[i]);
                }
            }
        } else {
            assert forall|i: int| 0 <= i < effects.len() implies lists_only_eligible(game, actor, #[trigger] effects[i]) by {
                if i < prev.2.len() {
                    assert(effects[i] == prev.2[i]);
                }
            }
        }
    }
}

/// Santa never puts a player on a list who is already on one: every
/// conclusion it adds goes to a living player other than Santa, on neither
/// list, whose win condition is a list of conclusions.
pub proof fn lemma_santa_lists_only_eligible(game: Game, actor: PlayerReference, state: SantaClaus, priority: Priority)
    ensures
        forall|i: int|
            0 <= i < santa_night(game, actor, state, priority).1.len() ==> lists_only_eligible(
                game,
                actor,
                #[trigger] santa_night(game, actor, state, priority).1[i],
            ),
{
    if priority == Priority::Convert {
        lemma_santa_run_eligible(game, actor, next_ability(state.ability_used_last_night), visit_targets(game, actor));
    }
}

impl SantaClaus {
    pub fn get_next_santa_ability(&self) -> (r: SantaListKind)
        ensures
            r == next_ability(self.ability_used_last_night),
    {
        match self.ability_used_last_night {
            Some(SantaListKind::Nice) => SantaListKind::Naughty,
            _ => SantaListKind::Nice,
        }
    }

    pub fn do_night_action(&self, game: &Game, actor_ref: PlayerReference, priority: Priority) -> (r: (
        SantaClaus,
        Vec<Effect>,
    ))
        requires
            game_ok(*game),
            valid_player(*game, actor_ref),
        ensures
            (r.0, r.1@) == santa_night(*game, actor_ref, *self, priority),
    {
        let mut out: Vec<Effect> = Vec::new();
        if priority != Priority::Convert {
            return (*self, out);
        }
        let kind = self.get_next_santa_ability();
        let targets = night_targets(game, actor_ref);
        let ks = krampuses(game);
        let mut added: Vec<PlayerReference> = Vec::new();
        let mut used = false;
        let mut i: usize = 0;
        while i < targets.len()
            invariant
                i <= targets@.len(),
                game_ok(*game),
                targets@ == visit_targets(*game, actor_ref),
                ks@ == krampuses_upto(*game, game.players@.len() as int),
                (used, added@, out@) == santa_run(*game, actor_ref, kind, targets@.take(i as int)),
            decreases targets@.len() - i,
        {
            proof {
                assert(targets@.take(i as int + 1).drop_last() =~= targets@.take(i as int));
            }
            let t = targets[i];
            if can_list_exec(game, actor_ref, &added, t) {
                let conclusion = match kind {
                    SantaListKind::Nice => GameConclusion::NiceList,
                    SantaListKind::Naughty => GameConclusion::NaughtyList,
                };
                let message = match kind {
                    SantaListKind::Nice => ChatMessageVariant::AddedToNiceList,
                    SantaListKind::Naughty => ChatMessageVariant::AddedToNaughtyList,
                };
                let ghost before = out@;
                out.push(Effect::AddWinConclusion { player: t, conclusion });
                out.push(Effect::NightMessage { to: t, message });
                match kind {
                    SantaListKind::Naughty => {
                        let ghost mid = out@;
                        let mut j: usize = 0;
                        while j < ks.len()
                            invariant
                                j <= ks@.len(),
                                out@ =~= mid + ks@.map_values(
                                    |k: PlayerReference|
                                        Effect::NightMessage {
                                            to: k,
                                            message: ChatMessageVariant::SantaAddedPlayerToNaughtyList { player: t },
                                        },
                                ).take(j as int),
                            decreases ks@.len() - j,
                        {
                            out.push(
                                Effect::NightMessage {
                                    to: ks[j],
                                    message: ChatMessageVariant::SantaAddedPlayerToNaughtyList { player: t },
                                },
                            );
                            j = j + 1;
                        }
                        proof {
                            let m = ks@.map_values(
                                |k: PlayerReference|
                                    Effect::NightMessage {
                                        to: k,
                                        message: ChatMessageVariant::SantaAddedPlayerToNaughtyList { player: t },
                                    },
                            );
                            assert(m.take(j as int) =~= m);
                            assert(out@ =~= before + listing_effects(*game, kind, t));
                        }
                    },
                    SantaListKind::Nice => {
                        proof {
                            assert(out@ =~= before + listing_effects(*game, kind, t));
                        }
                    },
                }
                added.push(t);
                used = true;
            } else {
                out.push(Effect::NightMessage { to: actor_ref, message: ChatMessageVariant::YourConvertFailed });
            }
            i = i + 1;
        }
        proof {
            assert(targets@.take(i as int) =~= targets@);
        }
        let next = if used {
            SantaClaus { ability_used_last_night: Some(kind) }
        } else {
            *self
        };
        (next, out)
    }

    /// Santa picks one other living player at night, with the controller of
    /// the list it works on tonight.
    pub fn controller_parameters_map(&self, game: &Game, actor_ref: PlayerReference) -> (r: ControllerParameters)
        requires
            game_ok(*game),
        ensures
            r.id == ControllerID::role(
                actor_ref,
                Role::SantaClaus,
                match next_ability(self.ability_used_last_night) {
                    SantaListKind::Nice => 0,
                    SantaListKind::Naughty => 1,
                },
            ),
            r.available matches AvailableAbilitySelection::PlayerList {
                available_players,
                can_choose_duplicates,
                max_players,
            } && available_players@ == filtered(*game, (Some(true), seq![actor_ref], None))
                && !can_choose_duplicates && max_players == Some(1u8),
            r.night_typical,
            !r.grayed_out,
            r.allowed_players@ == seq![actor_ref],
    {
        let id: u8 = match self.get_next_santa_ability() {
            SantaListKind::Nice => 0,
            SantaListKind::Naughty => 1,
        };
        let available_players = get_selectable_players(game, actor_ref);
        ControllerParameters {
            id: ControllerID::role(actor_ref, Role::SantaClaus, id),
            available: AvailableAbilitySelection::PlayerList {
                available_players,
                can_choose_duplicates: false,
                max_players: Some(1),
            },
            grayed_out: false,
            night_typical: true,
            reset_on_phase_start: None,
            dont_save: false,
            default_selection: None,
            allowed_players: vec![actor_ref],
        }
    }

    /// Santa visits the players saved in tonight's list controller, as attacks.
    pub fn convert_selection_to_visits(&self, game: &Game, actor_ref: PlayerReference) -> (r: Vec<Visit>)
        ensures
            r@ == selection_visits(
                *game,
                actor_ref,
                Role::SantaClaus,
                match next_ability(self.ability_used_last_night) {
                    SantaListKind::Nice => 0,
                    SantaListKind::Naughty => 1,
                },
                true,
            ),
    {
        match self.get_next_santa_ability() {
            SantaListKind::Nice => convert_controller_selection_to_visits(game, actor_ref, Role::SantaClaus, 0, true),
            SantaListKind::Naughty => convert_controller_selection_to_visits(game, actor_ref, Role::SantaClaus, 1, true),
        }
    }

    /// At nightfall Santa is told which list it works on tonight.
    pub fn on_phase_start(&self, actor_ref: PlayerReference, phase: PhaseType) -> (r: Vec<Effect>)
        ensures
            phase == PhaseType::Night ==> r@ == seq![
                Effect::PrivateMessage {
                    to: actor_ref,
                    message: ChatMessageVariant::NextSantaAbility {
                        ability: next_ability(self.ability_used_last_night),
                    },
                },
            ],
            phase != PhaseType::Night ==> r@.len() == 0,
    {
        if phase == PhaseType::Night {
            vec![Effect::PrivateMessage {
                to: actor_ref,
                message: ChatMessageVariant::NextSantaAbility { ability: self.get_next_santa_ability() },
            }]
        } else {
            Vec::new()
        }
    }
}

/// The players whose win conditions list the nice list, in index order.
pub fn get_nice_listers(game: &Game) -> (r: Vec<PlayerReference>)
    requires
        game_ok(*game),
    ensures
        r@ == listers_filter(*game, true),
{
    listers(game, true)
}

/// The players whose win conditions list the naughty list, in index order.
pub fn get_naughty_listers(game: &Game) -> (r: Vec<PlayerReference>)
    requires
        game_ok(*game),
    ensures
        r@ == listers_filter(*game, false),
{
    listers(game, false)
}

fn listers(game: &Game, nice: bool) -> (r: Vec<PlayerReference>)
    requires
        game_ok(*game),
    ensures
        r@ == listers_filter(*game, nice),
{
    let all = filter_players(game, None, &Vec::new(), None);
    let ghost pred = |p: PlayerReference| is_lister(*game, nice, p);
    proof {
        assert forall|j: int| 0 <= j < all@.len() implies valid_player(*game, #[trigger] all@[j]) by {
            crate::game::lemma_filtered_contains(*game, (None, Seq::empty(), None), game.players@.len() as int, all@[j]);
        }
    }
    let mut out: Vec<PlayerReference> = Vec::new();
    let mut i: usize = 0;
    while i < all.len()
        invariant
            i <= all@.len(),
            all@ == filtered(*game, (None, Seq::empty(), None)),
            game_ok(*game),
            pred == (|p: PlayerReference| is_lister(*game, nice, p)),
            out@ == all@.take(i as int).filter(pred),
            forall|j: int| 0 <= j < all@.len() ==> valid_player(*game, #[trigger] all@[j]),
        decreases all@.len() - i,
    {
        proof {
            assert(all@.take(i as int + 1).drop_last() =~= all@.take(i as int));
            assert(all@.take(i as int + 1).last() == all@[i as int]);
        }
        let p = all[i];
        let d = &game.players[p.index as usize];
        let ghost prev = out@;
        if (nice && d.on_nice_list) || (!nice && d.on_naughty_list) {
            out.push(p);
        }
        proof {
            reveal_with_fuel(Seq::filter, 1);
            let t1 = all@.take(i as int + 1);
            assert(t1.drop_last() =~= all@.take(i as int));
            assert(t1.filter(pred) == if pred(p) {
                prev.push(p)
            } else {
                prev
            });
        }
        i = i + 1;
    }
    proof {
        assert(all@.take(i as int) =~= all@);
    }
    out
}

} // verus!

//! The game model: roles, role lists and the facts of a game in progress.

pub mod role;
pub mod role_list;
pub mod role_outline_reference;
pub mod game_conclusion;
pub mod insider_group;
pub mod player;
pub mod phase;
pub mod chat;
pub mod visit;
pub mod attack_power;
pub mod ability_input;
pub mod settings;
pub mod selection_type;
pub mod spectator;
pub mod tag;
pub mod effect;

use vstd::prelude::*;
use crate::vec_set::VecSet;
use self::player::{PlayerData, PlayerReference};
use self::phase::PhaseType;
use self::ability_input::{AbilitySelection, ControllerID};
use self::settings::Settings;
use self::role_list::RoleAssignment;
use self::role_outline_reference::RoleOutlineReference;
use self::spectator::Spectator;
use self::chat::ChatMessageVariant;
use self::role::Role;
use self::effect::TagSetID;

verus! {

/// The state of a game that role decisions read.
#[derive(Debug)]
pub struct Game {
    pub day_number: u8,
    pub phase: PhaseType,
    /// The player on trial during the testimony, judgement and final words.
    pub player_on_trial: Option<PlayerReference>,
    pub players: Vec<PlayerData>,
    pub settings: Settings,
    pub saved_controllers: Vec<(ControllerID, AbilitySelection)>,
    /// Which player each outline generated, and what it drew.
    pub assignments: Vec<(PlayerReference, RoleOutlineReference, RoleAssignment)>,
    /// For each outline, the assignments it could have drawn.
    pub role_assignment_gen: Vec<Vec<RoleAssignment>>,
    pub spectators: Vec<Spectator>,
    pub spectator_chat_messages: Vec<ChatMessageVariant>,
    /// Whether the cult's next ability is its kill (else a conversion).
    pub cult_next_ability_kill: bool,
    /// The marks roles have put on players, in the order they were put.
    pub tags: Vec<(TagSetID, PlayerReference)>,
    pub ticking: bool,
}

/// The game's players, in index order.
pub open spec fn all_players(game: Game) -> Seq<PlayerReference> {
    Seq::new(game.players@.len(), |i: int| PlayerReference { index: i as u8 })
}

/// A player index small enough to name a player of the game.
pub open spec fn valid_player(game: Game, p: PlayerReference) -> bool {
    p.index < game.players@.len()
}

/// What the engine knows of player `p`.
pub open spec fn data(game: Game, p: PlayerReference) -> PlayerData {
    game.players@[p.index as int]
}

/// The games this library reasons about: every player has an index.
pub open spec fn game_ok(game: Game) -> bool {
    game.players@.len() <= 256
}

/// Which players a filter keeps: those whose liveness matches `alive` (when
/// given), who are not in `exclude`, and who are in `only` (when given).
pub type PlayerFilter = (Option<bool>, Seq<PlayerReference>, Option<Seq<PlayerReference>>);

pub open spec fn passes(game: Game, f: PlayerFilter, p: PlayerReference) -> bool {
    &&& match f.0 {
        Some(alive) => data(game, p).alive == alive,
        None => true,
    }
    &&& !f.1.contains(p)
    &&& match f.2 {
        Some(only) => only.contains(p),
        None => true,
    }
}

/// The players among the first `n` that the filter keeps, in index order.
pub open spec fn filtered_upto(game: Game, f: PlayerFilter, n: int) -> Seq<PlayerReference>
    decreases n,
{
    if n <= 0 {
        Seq::empty()
    } else {
        let before = filtered_upto(game, f, n - 1);
        let p = PlayerReference { index: (n - 1) as u8 };
        if passes(game, f, p) {
            before.push(p)
        } else {
            before
        }
    }
}

/// The players the filter keeps, in index order.
pub open spec fn filtered(game: Game, f: PlayerFilter) -> Seq<PlayerReference> {
    filtered_upto(game, f, game.players@.len() as int)
}

/// A filter keeps exactly the players of the game that pass it.
pub proof fn lemma_filtered_contains(game: Game, f: PlayerFilter, n: int, p: PlayerReference)
    requires
        0 <= n <= game.players@.len(),
        game_ok(game),
    ensures
        filtered_upto(game, f, n).contains(p) <==> (p.index < n && passes(game, f, p)),
    decreases n,
{
    broadcast use vstd::seq_lib::group_seq_properties;
    if n > 0 {
        lemma_filtered_contains(game, f, n - 1, p);
        let q = PlayerReference { index: (n - 1) as u8 };
        if p.index == n - 1 {
            assert(p == q);
        }
    }
}

/// A filter lists each player it keeps once.
pub proof fn lemma_filtered_no_duplicates(game: Game, f: PlayerFilter, n: int)
    requires
        0 <= n <= game.players@.len(),
        game_ok(game),
    ensures
        filtered_upto(game, f, n).no_duplicates(),
    decreases n,
{
    if n > 0 {
        lemma_filtered_no_duplicates(game, f, n - 1);
        let q = PlayerReference { index: (n - 1) as u8 };
        lemma_filtered_contains(game, f, n - 1, q);
    }
}

impl Game {
    pub fn day_number(&self) -> (r: u8)
        ensures
            r == self.day_number,
    {
        self.day_number
    }

    /// The number of players.
    pub fn num_players(&self) -> (r: u8)
        requires
            self.players@.len() < 256,
        ensures
            r == self.players@.len(),
    {
        self.players.len() as u8
    }
}

/// Whether the player's index names a player of the game.
pub fn is_player(game: &Game, p: PlayerReference) -> (r: bool)
    ensures
        r == valid_player(*game, p),
{
    (p.index as usize) < game.players.len()
}

/// Whether `p` is alive; a player the game does not hold counts as dead.
pub open spec fn alive(game: Game, p: PlayerReference) -> bool {
    valid_player(game, p) && data(game, p).alive
}

pub fn player_alive(game: &Game, p: PlayerReference) -> (r: bool)
    ensures
        r == alive(*game, p),
{
    (p.index as usize) < game.players.len() && game.players[p.index as usize].alive
}

/// The players `f` keeps, in index order.
pub fn filter_players(
    game: &Game,
    alive_filter: Option<bool>,
    exclude: &Vec<PlayerReference>,
    only: Option<&Vec<PlayerReference>>,
) -> (r: Vec<PlayerReference>)
    requires
        game_ok(*game),
    ensures
        r@ == filtered(
            *game,
            (alive_filter, exclude@, match only { Some(v) => Some(v@), None => None }),
        ),
{
    let ghost f: PlayerFilter = (alive_filter, exclude@, match only { Some(v) => Some(v@), None => None });
    let mut out: Vec<PlayerReference> = Vec::new();
    let mut i: usize = 0;
    while i < game.players.len()
        invariant
            i <= game.players@.len(),
            game_ok(*game),
            f == (alive_filter, exclude@, match only { Some(v) => Some(v@), None => None }),
            out@ == filtered_upto(*game, f, i as int),
        decreases game.players@.len() - i,
    {
        let p = PlayerReference { index: i as u8 };
        let mut keep = match alive_filter {
            Some(a) => game.players[i].alive == a,
            None => true,
        };
        if keep && vec_contains(exclude, p) {
            keep = false;
        }
        if keep {
            match only {
                Some(v) => {
                    if !vec_contains(v, p) {
                        keep = false;
                    }
                },
                None => {},
            }
        }
        if keep {
            out.push(p);
        }
        i = i + 1;
    }
    out
}

/// Whether `p` is in `v`.
pub fn vec_contains(v: &Vec<PlayerReference>, p: PlayerReference) -> (r: bool)
    ensures
        r == v@.contains(p),
{
    let mut i: usize = 0;
    while i < v.len()
        invariant
            i <= v@.len(),
            forall|j: int| 0 <= j < i ==> v@[j] != p,
        decreases v@.len() - i,
    {
        if v[i].index == p.index {
            assert(v@[i as int] == p);
            return true;
        }
        i = i + 1;
    }
    false
}

/// The roles of the game's players, in index order.
pub open spec fn player_roles(game: Game) -> Seq<Role> {
    game.players@.map_values(|d: PlayerData| d.role)
}

pub fn all_player_roles(game: &Game) -> (r: Vec<Role>)
    ensures
        r@ == player_roles(*game),
{
    let mut out: Vec<Role> = Vec::new();
    let mut i: usize = 0;
    while i < game.players.len()
        invariant
            i <= game.players@.len(),
            out@ =~= player_roles(*game).take(i as int),
        decreases game.players@.len() - i,
    {
        out.push(game.players[i].role);
        i = i + 1;
    }
    out
}

/// The players marked in `set`, in the order they were marked.
pub open spec fn tagged_in(tags: Seq<(TagSetID, PlayerReference)>, set: TagSetID) -> Seq<PlayerReference>
    decreases tags.len(),
{
    if tags.len() == 0 {
        Seq::empty()
    } else {
        let before = tagged_in(tags.drop_last(), set);
        if tags.last().0 == set {
            before.push(tags.last().1)
        } else {
            before
        }
    }
}

pub open spec fn tagged(game: Game, set: TagSetID) -> Seq<PlayerReference> {
    tagged_in(game.tags@, set)
}

/// The players marked in `set`, in the order they were marked.
pub fn tagged_players(game: &Game, set: TagSetID) -> (r: Vec<PlayerReference>)
    ensures
        r@ == tagged(*game, set),
{
    let mut out: Vec<PlayerReference> = Vec::new();
    let mut i: usize = 0;
    while i < game.tags.len()
        invariant
            i <= game.tags@.len(),
            out@ == tagged_in(game.tags@.take(i as int), set),
        decreases game.tags@.len() - i,
    {
        proof {
            assert(game.tags@.take(i as int + 1).drop_last() =~= game.tags@.take(i as int));
        }
        if game.tags[i].0 == set {
            out.push(game.tags[i].1);
        }
        i = i + 1;
    }
    proof {
        assert(game.tags@.take(i as int) =~= game.tags@);
    }
    out
}

/// Whether `p` is marked in `set`.
pub fn has_tag(game: &Game, set: TagSetID, p: PlayerReference) -> (r: bool)
    ensures
        r == tagged(*game, set).contains(p),
{
    let v = tagged_players(game, set);
    vec_contains(&v, p)
}

} // verus!

//! The seeker: camps at a player's house to catch a hider there; those
//! caught follow it, and three followers win it the game.

use vstd::prelude::*;
use crate::vec_set::VecSet;
use crate::game::{Game, data, valid_player, game_ok, filtered};
use crate::game::player::PlayerReference;
use crate::game::chat::ChatMessageVariant;
use crate::game::effect::{Effect, TagSetID};
use crate::game::visit::Visit;
use crate::game::ability_input::{
    ControllerID, ControllerParameters, AvailableAbilitySelection, saved_player_list,
    get_player_list_selection,
};
use crate::random::choose_random;
use super::{Role, OnMidnightPriority};
use super::common_role::{
    spec_first_visit, first_visit, visitors, visitors_of, selection_visits,
    convert_controller_selection_to_visits,
};

verus! {

#[derive(Debug)]
pub struct Seeker {
    /// The players caught so far, each once.
    pub followers: VecSet<PlayerReference>,
    /// The player caught tonight, who follows from the end of the night.
    pub new_follower: Option<PlayerReference>,
    pub left_town: bool,
}

impl Default for Seeker {
    fn default() -> (r: Self)
        ensures
            r.followers@.len() == 0,
            r.new_follower is None,
            !r.left_town,
    {
        Seeker { followers: VecSet::new(), new_follower: None, left_town: false }
    }
}

/// The seeker has won with three followers, or with two and a third caught
/// tonight.
pub open spec fn seeker_won(followers: Seq<PlayerReference>, new_follower: Option<PlayerReference>) -> bool {
    followers.len() >= 3 || (new_follower matches Some(f) && followers.len() == 2
        && !followers.contains(f))
}

/// `n` as an 8-bit signed count, as a cast to `i8` gives it.
pub open spec fn as_i8(n: nat) -> int {
    let t = n % 256;
    if t < 128 {
        t as int
    } else {
        t - 256
    }
}

/// How many more the seeker must catch after tonight's: two less the
/// followers it has, saturating at the bounds of an `i8`.
pub open spec fn players_left(n: nat) -> i8 {
    let d = 2 - as_i8(n);
    if d > 127 {
        127
    } else if d < -128 {
        -128i8
    } else {
        d as i8
    }
}

/// The hider picked in the seeker's marking controller.
pub open spec fn picked_hider(game: Game, actor: PlayerReference) -> Option<PlayerReference> {
    match saved_player_list(game, ControllerID::role(actor, Role::Seeker, 0)) {
        Some(list) => if list.len() > 0 {
            Some(list[0])
        } else {
            None
        },
        None => None,
    }
}

/// The seeker works the ability of each follower at every step.
pub open spec fn possess_followers(actor: PlayerReference, followers: Seq<PlayerReference>) -> Seq<Effect> {
    followers.map_values(|f: PlayerReference| Effect::PossessAction { possessor: actor, target: f })
}

/// The investigative step: the hider is caught when it visited the house
/// the seeker camped at.
pub open spec fn seeker_search(game: Game, actor: PlayerReference, followers: Seq<PlayerReference>) -> Option<(PlayerReference, Seq<Effect>)> {
    match (spec_first_visit(game, actor), picked_hider(game, actor)) {
        (Some(v), Some(hider)) => if valid_player(game, v.target) && visitors(game, v.target).contains(hider) {
            Some(
                (
                    hider,
                    seq![
                        Effect::NightMessage {
                            to: actor,
                            message: ChatMessageVariant::SeekerCaught {
                                hider: hider.index,
                                players_left: players_left(followers.len()),
                                role_state_win_con: !data(game, actor).win_condition_is_conclusion_list,
                            },
                        },
                        Effect::NightMessage { to: hider, message: ChatMessageVariant::CaughtBySeeker },
                    ],
                ),
            )
        } else {
            None
        },
        _ => None,
    }
}

/// The followers who would pass on the seeker's role: the town loyalists
/// among them if there is one, else all of them.
pub open spec fn apprentice_pool(game: Game, followers: Seq<PlayerReference>) -> Seq<PlayerReference> {
    let loyal = followers.filter(|p: PlayerReference| is_town_loyalist(game, p));
    if loyal.len() > 0 {
        loyal
    } else {
        followers
    }
}

pub open spec fn is_town_loyalist(game: Game, p: PlayerReference) -> bool {
    valid_player(game, p) && data(game, p).loyalist_for_town
}

/// The end of the night for a seeker with a new follower, once the
/// apprentice (if any) is drawn: the follower joins, and a seeker that has
/// won leaves the town and its apprentice becomes a seeker.
pub open spec fn seeker_finalize(
    game: Game,
    actor: PlayerReference,
    followers: Seq<PlayerReference>,
    follower: PlayerReference,
    apprentice: Option<PlayerReference>,
) -> Seq<Effect> {
    seq![Effect::AddTag { set: TagSetID::Follower(actor), player: follower }] + if data(game, actor).won_game {
        seq![Effect::LeaveTown { player: actor }] + match apprentice {
            Some(a) => seq![Effect::ConvertTonight { target: a, role: Role::Seeker }],
            None => Seq::empty(),
        }
    } else {
        Seq::empty()
    }
}

/// The followers once `follower` joins.
pub open spec fn joined_followers(followers: Seq<PlayerReference>, follower: PlayerReference) -> Seq<PlayerReference> {
    if followers.contains(follower) {
        followers
    } else {
        followers.push(follower)
    }
}

/// The end of the night as it came out for a seeker with a new follower:
/// the follower joins, and the effects are those of `seeker_finalize` with an
/// apprentice drawn from the pool when the seeker has won and the pool is
/// not empty.
pub open spec fn finalized(
    game: Game,
    actor: PlayerReference,
    followers: Seq<PlayerReference>,
    follower: PlayerReference,
    new_followers: Seq<PlayerReference>,
    new_follower: Option<PlayerReference>,
    effects: Seq<Effect>,
) -> bool {
    let joined = joined_followers(followers, follower);
    let base = possess_followers(actor, followers);
    &&& new_followers == joined
    &&& new_follower is None
    &&& if data(game, actor).won_game && apprentice_pool(game, joined).len() > 0 {
        exists|a: PlayerReference|
            #[trigger] apprentice_pool(game, joined).contains(a) && effects == base + seeker_finalize(
                game,
                actor,
                followers,
                follower,
                Some(a),
            )
    } else {
        effects == base + seeker_finalize(game, actor, followers, follower, None)
    }
}

fn players_left_exec(n: usize) -> (r: i8)
    ensures
        r == players_left(n as nat),
{
    let t: i16 = (n % 256) as i16;
    let s: i16 = if t < 128 {
        t
    } else {
        t - 256
    };
    let d: i16 = 2 - s;
    if d > 127 {
        127
    } else if d < -128 {
        -128
    } else {
        d as i8
    }
}

fn town_loyal_followers(game: &Game, followers: &Vec<PlayerReference>) -> (r: Vec<PlayerReference>)
    ensures
        r@ == followers@.filter(|p: PlayerReference| is_town_loyalist(*game, p)),
{
    let ghost pred = |p: PlayerReference| is_town_loyalist(*game, p);
    let mut out: Vec<PlayerReference> = Vec::new();
    let mut i: usize = 0;
    while i < followers.len()
        invariant
            i <= followers@.len(),
            pred == (|p: PlayerReference| is_town_loyalist(*game, p)),
            out@ == followers@.take(i as int).filter(pred),
        decreases followers@.len() - i,
    {
        let p = followers[i];
        let ghost prev = out@;
        if (p.index as usize) < game.players.len() && game.players[p.index as usize].loyalist_for_town {
            out.push(p);
        }
        proof {
            reveal_with_fuel(Seq::filter, 1);
            let t1 = followers@.take(i as int + 1);
            assert(t1.drop_last() =~= followers@.take(i as int));
            assert(t1.last() == p);
        }
        i = i + 1;
    }
    proof {
        assert(followers@.take(i as int) =~= followers@);
    }
    out
}

impl Seeker {
    pub fn won(&self) -> (r: bool)
        ensures
            r == seeker_won(self.followers@, self.new_follower),
    {
        self.followers.len() >= 3 || match self.new_follower {
            Some(f) => self.followers.len() == 2 && !self.followers.contains(&f),
            None => false,
        }
    }

    /// The seeker's night. At every step it first works its followers'
    /// abilities. At the investigative step it catches the hider it picked if
    /// the hider visited where it camped; at the end of the night a caught
    /// hider becomes a follower, and a seeker that has won leaves the town,
    /// passing its role to a random follower, a town loyalist where it can.
    pub fn on_midnight(self, game: &Game, actor_ref: PlayerReference, priority: OnMidnightPriority) -> (r: (
        Seeker,
        Vec<Effect>,
    ))
        requires
            game_ok(*game),
            valid_player(*game, actor_ref),
        ensures
            priority == OnMidnightPriority::Investigative && seeker_search(*game, actor_ref, self.followers@) is Some
                ==> r.0.new_follower == Some((seeker_search(*game, actor_ref, self.followers@)->0).0)
                && r.0.followers@ == self.followers@ && r.1@ == possess_followers(actor_ref, self.followers@)
                + (seeker_search(*game, actor_ref, self.followers@)->0).1,
            priority == OnMidnightPriority::Investigative && seeker_search(*game, actor_ref, self.followers@) is None
                ==> r.0.new_follower == self.new_follower && r.0.followers@ == self.followers@ && r.1@
                == possess_followers(actor_ref, self.followers@),
            priority == OnMidnightPriority::FinalizeNight && self.new_follower is None ==> r.0.followers@
                == self.followers@ && r.0.new_follower is None && r.1@ == possess_followers(actor_ref, self.followers@),
            priority == OnMidnightPriority::FinalizeNight && self.new_follower is Some ==> finalized(
                *game,
                actor_ref,
                self.followers@,
                self.new_follower->0,
                r.0.followers@,
                r.0.new_follower,
                r.1@,
            ),
            priority != OnMidnightPriority::Investigative && priority != OnMidnightPriority::FinalizeNight
                ==> r.0.followers@ == self.followers@ && r.0.new_follower == self.new_follower && r.1@
                == possess_followers(actor_ref, self.followers@),
            r.0.left_town == self.left_town,
    {
        let mut state = self;
        let mut out: Vec<Effect> = Vec::new();
        let fs = state.followers.as_vec();
        let mut i: usize = 0;
        while i < fs.len()
            invariant
                i <= fs@.len(),
                out@ =~= possess_followers(actor_ref, fs@).take(i as int),
            decreases fs@.len() - i,
        {
            out.push(Effect::PossessAction { possessor: actor_ref, target: fs[i] });
            i = i + 1;
        }
        proof {
            assert(possess_followers(actor_ref, fs@).take(i as int) =~= possess_followers(actor_ref, fs@));
        }
        let ghost base = out@;
        match priority {
            OnMidnightPriority::Investigative => {
                let spot = match first_visit(game, actor_ref) {
                    Some(v) => v.target,
                    None => return (state, out),
                };
                let hider = match get_player_list_selection(game, ControllerID::role(actor_ref, Role::Seeker, 0)) {
                    Some(list) => {
                        if list.len() > 0 {
                            list[0]
                        } else {
                            return (state, out);
                        }
                    },
                    None => return (state, out),
                };
                if (spot.index as usize) >= game.players.len() {
                    return (state, out);
                }
                let vis = visitors_of(game, spot);
                if crate::game::vec_contains(&vis, hider) {
                    let left = players_left_exec(state.followers.len());
                    out.push(
                        Effect::NightMessage {
                            to: actor_ref,
                            message: ChatMessageVariant::SeekerCaught {
                                hider: hider.index,
                                players_left: left,
                                role_state_win_con: !game.players[actor_ref.index as usize].win_condition_is_conclusion_list,
                            },
                        },
                    );
                    out.push(Effect::NightMessage { to: hider, message: ChatMessageVariant::CaughtBySeeker });
                    state.new_follower = Some(hider);
                    proof {
                        let (h, effects) = seeker_search(*game, actor_ref, self.followers@)->0;
                        assert(h == hider);
                        assert(out@ =~= base + effects);
                    }
                }
                (state, out)
            },
            OnMidnightPriority::FinalizeNight => {
                let follower = match state.new_follower {
                    Some(f) => f,
                    None => return (state, out),
                };
                state.followers.insert(follower);
                out.push(Effect::AddTag { set: TagSetID::Follower(actor_ref), player: follower });
                state.new_follower = None;
                if game.players[actor_ref.index as usize].won_game {
                    out.push(Effect::LeaveTown { player: actor_ref });
                    let fs = state.followers.as_vec();
                    let loyal = town_loyal_followers(game, fs);
                    let apprentice = if loyal.len() > 0 {
                        choose_random(loyal.as_slice())
                    } else {
                        choose_random(fs.as_slice())
                    };
                    match apprentice {
                        Some(a) => {
                            let a = *a;
                                out.push(Effect::ConvertTonight { target: a, role: Role::Seeker });
                            proof {
                                assert(base =~= possess_followers(actor_ref, self.followers@));
                                assert(fs@ == state.followers@);
                                assert(apprentice_pool(*game, state.followers@).contains(a));
                                assert(out@ =~= base + seeker_finalize(*game, actor_ref, self.followers@, follower, Some(a)));
                                let joined = joined_followers(self.followers@, follower);
                                assert(state.followers@ == joined);
                                assert(data(*game, actor_ref).won_game);
                                assert(apprentice_pool(*game, joined).len() > 0);
                                assert(apprentice_pool(*game, joined).contains(a) && out@ == base + seeker_finalize(*game, actor_ref, self.followers@, follower, Some(a)));
                                assert(finalized(*game, actor_ref, self.followers@, follower, state.followers@, state.new_follower, out@));
                            }
                        },
                        None => {
                            proof {
                                assert(state.followers@.contains(follower));
                                assert(fs@.len() > 0);
                                assert(false);
                            }
                        },
                    }
                } else {
                    proof {
                        assert(out@ =~= base + seeker_finalize(*game, actor_ref, self.followers@, follower, None));
                    }
                }
                (state, out)
            },
            _ => (state, out),
        }
    }

    /// Two controllers: the hider to mark (a living player other than the
    /// seeker and its followers), grayed out once the seeker has won; and the
    /// house to camp at (any living player), grayed out once its player won.
    pub fn controller_parameters_map(&self, game: &Game, actor_ref: PlayerReference) -> (r: Vec<ControllerParameters>)
        requires
            game_ok(*game),
            valid_player(*game, actor_ref),
        ensures
            r@.len() == 2,
            r@[0].id == ControllerID::role(actor_ref, Role::Seeker, 0),
            r@[0].available matches AvailableAbilitySelection::PlayerList {
                available_players,
                can_choose_duplicates,
                max_players,
            } && available_players@ == filtered(*game, (Some(true), seq![actor_ref], None)).filter(
                |p: PlayerReference| !self.followers@.contains(p),
            ) && !can_choose_duplicates && max_players == Some(1u8),
            r@[0].grayed_out == seeker_won(self.followers@, self.new_follower),
            r@[0].night_typical,
            r@[1].id == ControllerID::role(actor_ref, Role::Seeker, 1),
            r@[1].available matches AvailableAbilitySelection::PlayerList {
                available_players,
                can_choose_duplicates,
                max_players,
            } && available_players@ == filtered(*game, (Some(true), Seq::empty(), None))
                && !can_choose_duplicates && max_players == Some(1u8),
            r@[1].grayed_out == data(*game, actor_ref).won_game,
            r@[1].night_typical,
    {
        let exclude = vec![actor_ref];
        let others = crate::game::filter_players(game, Some(true), &exclude, None);
        proof {
            assert(exclude@ =~= seq![actor_ref]);
        }
        let ghost pred = |p: PlayerReference| !self.followers@.contains(p);
        let mut marks: Vec<PlayerReference> = Vec::new();
        let mut i: usize = 0;
        while i < others.len()
            invariant
                i <= others@.len(),
                pred == (|p: PlayerReference| !self.followers@.contains(p)),
                marks@ == others@.take(i as int).filter(pred),
            decreases others@.len() - i,
        {
            let p = others[i];
            let ghost prev = marks@;
            if !self.followers.contains(&p) {
                marks.push(p);
            }
            proof {
                reveal_with_fuel(Seq::filter, 1);
                let t1 = others@.take(i as int + 1);
                assert(t1.drop_last() =~= others@.take(i as int));
                assert(t1.last() == p);
            }
            i = i + 1;
        }
        proof {
            assert(others@.take(i as int) =~= others@);
        }
        let camps = crate::game::filter_players(game, Some(true), &Vec::new(), None);
        let mark = ControllerParameters {
            id: ControllerID::role(actor_ref, Role::Seeker, 0),
            available: AvailableAbilitySelection::PlayerList {
                available_players: marks,
                can_choose_duplicates: false,
                max_players: Some(1),
            },
            grayed_out: self.won(),
            night_typical: true,
            reset_on_phase_start: None,
            dont_save: false,
            default_selection: None,
            allowed_players: vec![actor_ref],
        };
        let camp = ControllerParameters {
            id: ControllerID::role(actor_ref, Role::Seeker, 1),
            available: AvailableAbilitySelection::PlayerList {
                available_players: camps,
                can_choose_duplicates: false,
                max_players: Some(1),
            },
            grayed_out: game.players[actor_ref.index as usize].won_game,
            night_typical: true,
            reset_on_phase_start: None,
            dont_save: false,
            default_selection: None,
            allowed_players: vec![actor_ref],
        };
        vec![mark, camp]
    }

    /// The seeker visits the house it camps at.
    pub fn convert_selection_to_visits(&self, game: &Game, actor_ref: PlayerReference) -> (r: Vec<Visit>)
        ensures
            r@ == selection_visits(*game, actor_ref, Role::Seeker, 1, false),
    {
        convert_controller_selection_to_visits(game, actor_ref, Role::Seeker, 1, false)
    }
}

} // verus!

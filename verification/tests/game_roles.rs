use town_roles::game::ability_input::{AbilitySelection, ControllerID};
use town_roles::game::attack_power::{AttackPower, DefensePower};
use town_roles::game::chat::{ChatGroup, ChatMessageVariant};
use town_roles::game::effect::{Effect, GraveKiller, TagSetID};
use town_roles::game::game_conclusion::GameConclusion;
use town_roles::game::phase::PhaseType;
use town_roles::game::player::{PlayerData, PlayerReference};
use town_roles::game::role::philosopher::Philosopher;
use town_roles::game::role::politician::Politician;
use town_roles::game::role::reeducator::Reeducator;
use town_roles::game::role::reporter::Reporter;
use town_roles::game::role::recruiter::Recruiter;
use town_roles::game::role::steward::Steward;
use town_roles::game::role::vigilante::{Vigilante, VigilanteState};
use town_roles::game::role::telepath::Telepath;
use town_roles::game::role::santa_claus::{SantaClaus, SantaListKind};
use town_roles::game::role::sheriff::Sheriff;
use town_roles::game::role::tally_clerk::TallyClerk;
use town_roles::game::role::trapper::{Trap, TrapState, Trapper};
use town_roles::game::role::warden::Warden;
use town_roles::game::role::werewolf::Werewolf;
use town_roles::game::role::{OnMidnightPriority, Priority, Role};
use town_roles::game::role_list::RoleList;
use town_roles::game::settings::{PhaseTimeSettings, Settings};
use town_roles::game::tag::Tag;
use town_roles::game::visit::Visit;
use town_roles::game::{filter_players, has_tag, is_player, player_alive, tagged_players, Game};
use town_roles::vec_set::VecSet;

fn player(role: Role) -> PlayerData {
    PlayerData {
        alive: true,
        role,
        loyalist_for_town: false,
        loyalist_for_politician: false,
        on_nice_list: false,
        on_naughty_list: false,
        win_condition_is_conclusion_list: false,
        win_conclusions: Vec::new(),
        suspicious_to_confused: false,
        keeps_game_running: false,
        ability_deactivated_from_death: false,
        detained: false,
        confused: false,
        has_innocent_aura: false,
        has_suspicious_aura: false,
        night_blocked: false,
        night_silenced: false,
        vampire_tracked: false,
        is_marionette: false,
        night_died: false,
        night_attacked: false,
        chosen_targets: Vec::new(),
        defense: DefensePower::NoDefense,
        in_mafia: false,
        guiltied_today: false,
        won_game: false,
        grave_role: None,
        will: String::new(),
        night_visits: Vec::new(),
        night_messages: Vec::new(),
    }
}

fn game_of(players: Vec<PlayerData>) -> Game {
    Game {
        day_number: 2,
        phase: PhaseType::Night,
        player_on_trial: None,
        players,
        settings: Settings {
            role_list: RoleList(Vec::new()),
            phase_times: PhaseTimeSettings::default(),
            enabled_roles: VecSet::new(),
            scheduled_nominations: false,
        },
        saved_controllers: Vec::new(),
        assignments: Vec::new(),
        role_assignment_gen: Vec::new(),
        spectators: Vec::new(),
        spectator_chat_messages: Vec::new(),
        cult_next_ability_kill: false,
        tags: Vec::new(),
        ticking: true,
    }
}

fn p(i: u8) -> PlayerReference {
    PlayerReference::new(i)
}

fn visit(from: u8, to: u8, role: Role, attack: bool) -> Visit {
    Visit { visitor: p(from), target: p(to), attack, role, id: 0 }
}

#[test]
fn filter_keeps_living_players_not_excluded() {
    let mut players = vec![player(Role::Villager), player(Role::Jailor), player(Role::Goon), player(Role::Spy)];
    players[2].alive = false;
    let game = game_of(players);
    assert_eq!(filter_players(&game, Some(true), &vec![p(0)], None), vec![p(1), p(3)]);
    assert_eq!(filter_players(&game, Some(false), &vec![], None), vec![p(2)]);
    assert_eq!(filter_players(&game, None, &vec![], Some(&vec![p(3), p(0)])), vec![p(0), p(3)]);
    assert!(is_player(&game, p(3)));
    assert!(!is_player(&game, p(4)));
    assert!(!player_alive(&game, p(2)));
    assert!(!player_alive(&game, p(9)));
    assert_eq!(game.num_players(), 4);
}

#[test]
fn tags_are_found_by_set() {
    let mut game = game_of(vec![player(Role::Werewolf), player(Role::Villager), player(Role::Spy)]);
    game.tags.push((TagSetID::WerewolfTracked(p(0)), p(2)));
    game.tags.push((TagSetID::Follower(p(1)), p(1)));
    game.tags.push((TagSetID::WerewolfTracked(p(0)), p(1)));
    assert_eq!(tagged_players(&game, TagSetID::WerewolfTracked(p(0))), vec![p(2), p(1)]);
    assert!(has_tag(&game, TagSetID::Follower(p(1)), p(1)));
    assert!(!has_tag(&game, TagSetID::Follower(p(1)), p(2)));
}

#[test]
fn sheriff_reads_suspicious_aura() {
    let mut players = vec![player(Role::Sheriff), player(Role::Goon)];
    players[1].has_suspicious_aura = true;
    players[0].night_visits.push(visit(0, 1, Role::Sheriff, false));
    let game = game_of(players);
    let effects = Sheriff.do_night_action(&game, p(0), Priority::Investigative);
    assert_eq!(
        effects,
        vec![Effect::NightMessage { to: p(0), message: ChatMessageVariant::SheriffResult { suspicious: true } }]
    );
    assert!(Sheriff.do_night_action(&game, p(0), Priority::Kill).is_empty());
}

#[test]
fn sheriff_learns_target_jailed() {
    let mut players = vec![player(Role::Sheriff), player(Role::Goon)];
    players[1].detained = true;
    players[0].night_visits.push(visit(0, 1, Role::Sheriff, false));
    let game = game_of(players);
    assert_eq!(
        Sheriff.do_night_action(&game, p(0), Priority::Investigative),
        vec![Effect::NightMessage { to: p(0), message: ChatMessageVariant::TargetJailed }]
    );
}

#[test]
fn sheriff_without_visit_learns_nothing() {
    let game = game_of(vec![player(Role::Sheriff), player(Role::Goon)]);
    assert!(Sheriff.do_night_action(&game, p(0), Priority::Investigative).is_empty());
}

#[test]
fn tally_clerk_counts_suspicious_guilty_voters() {
    let mut players = vec![player(Role::TallyClerk), player(Role::Goon), player(Role::Villager), player(Role::Goon)];
    for i in 1..4 {
        players[i].guiltied_today = true;
    }
    players[1].has_suspicious_aura = true;
    players[2].loyalist_for_town = true;
    players[3].has_suspicious_aura = true;
    players[3].alive = false;
    let game = game_of(players);
    assert_eq!(TallyClerk::result(&game), 1);
    assert_eq!(TallyClerk::confused_result_with(&game, 1), 2);
    assert_eq!(TallyClerk::confused_result_with(&game, 200), 3);
    let r = TallyClerk::confused_result(&game);
    assert!(r == 1 || r == 2);
}

#[test]
fn philosopher_aura_and_friendship() {
    let mut players = vec![player(Role::Philosopher), player(Role::Villager), player(Role::Goon), player(Role::Jester)];
    players[1].win_condition_is_conclusion_list = true;
    players[1].win_conclusions = vec![GameConclusion::Town];
    players[2].win_condition_is_conclusion_list = true;
    players[2].win_conclusions = vec![GameConclusion::Mafia];
    let mut game = game_of(players);
    assert!(Philosopher::players_are_enemies(&game, p(1), p(2)));
    assert!(!Philosopher::players_are_enemies(&game, p(1), p(3)));
    game.players[2].win_conclusions.push(GameConclusion::Town);
    assert!(!Philosopher::players_are_enemies(&game, p(1), p(2)));
    game.players[3].has_suspicious_aura = true;
    assert!(Philosopher::players_are_enemies(&game, p(1), p(3)));
    game.players[2].has_innocent_aura = true;
    game.players[2].win_conclusions = vec![GameConclusion::Mafia];
    assert!(!Philosopher::players_are_enemies(&game, p(1), p(2)));
    assert!(Philosopher::players_are_enemies_plain(&game, p(1), p(2)));
}

#[test]
fn werewolf_first_marks_then_tracks() {
    let mut players = vec![player(Role::Werewolf), player(Role::Villager), player(Role::Doctor)];
    players[0].night_visits.push(visit(0, 1, Role::Werewolf, true));
    let game = game_of(players);
    assert_eq!(
        Werewolf.on_midnight(&game, p(0), OnMidnightPriority::Kill),
        vec![Effect::AddTag { set: TagSetID::WerewolfTracked(p(0)), player: p(1) }]
    );
}

#[test]
fn werewolf_rampages_on_tracked_target() {
    let mut players = vec![player(Role::Werewolf), player(Role::Villager), player(Role::Doctor)];
    players[0].night_visits.push(visit(0, 1, Role::Werewolf, true));
    players[2].night_visits.push(visit(2, 1, Role::Doctor, false));
    let mut game = game_of(players);
    game.tags.push((TagSetID::WerewolfTracked(p(0)), p(1)));
    let attack = |t: u8| Effect::Attack {
        attacker: p(0),
        target: p(t),
        killer: GraveKiller::Role(Role::Werewolf),
        power: AttackPower::ArmorPiercing,
        leave_death_note: true,
    };
    assert_eq!(Werewolf.on_midnight(&game, p(0), OnMidnightPriority::Kill), vec![attack(2), attack(1)]);
    game.day_number = 1;
    assert!(Werewolf.on_midnight(&game, p(0), OnMidnightPriority::Kill).is_empty());
}

#[test]
fn werewolf_tracking_reports_visited_players() {
    let mut players = vec![player(Role::Werewolf), player(Role::Villager), player(Role::Doctor)];
    players[1].night_visits.push(visit(1, 2, Role::Villager, false));
    let mut game = game_of(players);
    game.tags.push((TagSetID::WerewolfTracked(p(0)), p(1)));
    assert_eq!(
        Werewolf.on_midnight(&game, p(0), OnMidnightPriority::Investigative),
        vec![Effect::NightMessage {
            to: p(0),
            message: ChatMessageVariant::WerewolfTrackingResult { tracked_player: 1, players: vec![2] }
        }]
    );
}

#[test]
fn warden_kills_those_who_chose_death() {
    let mut game = game_of(vec![player(Role::Warden), player(Role::Goon), player(Role::Villager), player(Role::Spy)]);
    let w = Warden { players_in_prison: vec![p(1), p(2), p(3)] };
    assert_eq!(w.players_to_kill(&game, p(0)).as_vec(), &vec![p(1), p(2), p(3)]);
    game.saved_controllers.push((ControllerID::WardenLiveOrDie { warden: p(0), player: p(2) }, AbilitySelection::Boolean(false)));
    game.saved_controllers.push((ControllerID::WardenLiveOrDie { warden: p(0), player: p(3) }, AbilitySelection::Boolean(true)));
    assert_eq!(w.players_to_kill(&game, p(0)).as_vec(), &vec![p(2)]);
}

#[test]
fn warden_reads_warden_chat() {
    let common = VecSet::with_first(ChatGroup::All);
    let groups = Warden { players_in_prison: Vec::new() }.get_current_receive_chat_groups(common);
    assert_eq!(groups.as_vec(), &vec![ChatGroup::All, ChatGroup::Warden]);
}

#[test]
fn santa_lists_nice_then_naughty() {
    let mut players = vec![player(Role::SantaClaus), player(Role::Villager), player(Role::Krampus)];
    players[1].win_condition_is_conclusion_list = true;
    players[0].night_visits.push(visit(0, 1, Role::SantaClaus, true));
    let game = game_of(players);
    let santa = SantaClaus::default();
    assert_eq!(santa.get_next_santa_ability(), SantaListKind::Nice);
    let (next, effects) = santa.do_night_action(&game, p(0), Priority::Convert);
    assert_eq!(next.ability_used_last_night, Some(SantaListKind::Nice));
    assert_eq!(
        effects,
        vec![
            Effect::AddWinConclusion { player: p(1), conclusion: GameConclusion::NiceList },
            Effect::NightMessage { to: p(1), message: ChatMessageVariant::AddedToNiceList },
        ]
    );
    assert_eq!(next.get_next_santa_ability(), SantaListKind::Naughty);
    let (after, effects) = next.do_night_action(&game, p(0), Priority::Convert);
    assert_eq!(after.ability_used_last_night, Some(SantaListKind::Naughty));
    assert_eq!(
        effects,
        vec![
            Effect::AddWinConclusion { player: p(1), conclusion: GameConclusion::NaughtyList },
            Effect::NightMessage { to: p(1), message: ChatMessageVariant::AddedToNaughtyList },
            Effect::NightMessage { to: p(2), message: ChatMessageVariant::SantaAddedPlayerToNaughtyList { player: p(1) } },
        ]
    );
}

#[test]
fn santa_fails_on_protected_or_listed_targets() {
    let mut players = vec![player(Role::SantaClaus), player(Role::Villager)];
    players[1].win_condition_is_conclusion_list = true;
    players[1].defense = DefensePower::Protected;
    players[0].night_visits.push(visit(0, 1, Role::SantaClaus, true));
    let game = game_of(players);
    let santa = SantaClaus::default();
    let (next, effects) = santa.do_night_action(&game, p(0), Priority::Convert);
    assert_eq!(next.ability_used_last_night, None);
    assert_eq!(effects, vec![Effect::NightMessage { to: p(0), message: ChatMessageVariant::YourConvertFailed }]);
}

#[test]
fn santa_is_told_tonights_list() {
    let santa = SantaClaus { ability_used_last_night: Some(SantaListKind::Nice) };
    assert!(santa.on_phase_start(p(0), PhaseType::Discussion).is_empty());
    assert_eq!(santa.on_phase_start(p(0), PhaseType::Night).len(), 1);
}

#[test]
fn trapper_is_told_its_trap_at_night() {
    let mut game = game_of(vec![player(Role::Trapper), player(Role::Villager)]);
    let t = Trapper { trap: Trap::Placed { target: p(1) } };
    assert_eq!(t.trap.state(), TrapState::Placed);
    assert_eq!(
        t.on_phase_start(&game, p(0), PhaseType::Night),
        vec![Effect::PrivateMessage { to: p(0), message: ChatMessageVariant::TrapState { state: TrapState::Placed } }]
    );
    assert!(t.on_phase_start(&game, p(0), PhaseType::Dusk).is_empty());
    game.players[0].alive = false;
    assert!(t.on_phase_start(&game, p(0), PhaseType::Night).is_empty());
}

#[test]
fn politician_leaving_clears_enfranchised_tags() {
    let game = game_of(vec![player(Role::Politician), player(Role::Villager)]);
    let pol = Politician::default();
    assert_eq!(
        pol.before_role_switch(&game, p(0), p(0)),
        vec![
            Effect::RemovePlayerTag { viewer: p(0), player: p(0), tag: Tag::Enfranchised },
            Effect::RemovePlayerTag { viewer: p(1), player: p(0), tag: Tag::Enfranchised },
        ]
    );
    assert!(pol.before_role_switch(&game, p(0), p(1)).is_empty());
}

#[test]
fn attack_power_pierces_weaker_defense() {
    assert!(AttackPower::Basic.can_pierce(DefensePower::NoDefense));
    assert!(!AttackPower::Basic.can_pierce(DefensePower::Armored));
    assert!(AttackPower::ArmorPiercing.can_pierce(DefensePower::Armored));
    assert!(!AttackPower::ArmorPiercing.can_pierce(DefensePower::Protected));
    assert!(AttackPower::ProtectionPiercing.can_pierce(DefensePower::Protected));
    assert!(!AttackPower::ProtectionPiercing.can_pierce(DefensePower::Invincible));
}

#[test]
fn phase_times_in_seconds() {
    let t = PhaseTimeSettings::default();
    assert_eq!(t.get_time_for(PhaseType::Briefing), Some(45));
    assert_eq!(t.get_time_for(PhaseType::Discussion), Some(120));
    assert_eq!(t.get_time_for(PhaseType::Night), Some(60));
    assert_eq!(t.get_time_for(PhaseType::Recess), None);
    assert!(!t.game_ends_instantly());
    let zero = PhaseTimeSettings {
        briefing: 10,
        obituary: 0,
        discussion: 0,
        nomination: 0,
        testimony: 5,
        judgement: 5,
        final_words: 5,
        dusk: 0,
        night: 0,
    };
    assert!(zero.game_ends_instantly());
    assert!(!PhaseTimeSettings { night: 1, ..zero }.game_ends_instantly());
}

#[test]
fn werewolf_tracking_order_is_shuffled() {
    let mut players = vec![player(Role::Werewolf), player(Role::Villager), player(Role::Doctor), player(Role::Spy), player(Role::Goon)];
    players[1].night_visits.push(visit(1, 2, Role::Villager, false));
    players[1].night_visits.push(visit(1, 3, Role::Villager, false));
    players[1].night_visits.push(visit(1, 4, Role::Villager, false));
    let mut game = game_of(players);
    game.tags.push((TagSetID::WerewolfTracked(p(0)), p(1)));
    let mut orders = Vec::new();
    for _ in 0..200 {
        match &Werewolf.on_midnight(&game, p(0), OnMidnightPriority::Investigative)[..] {
            [Effect::NightMessage { message: ChatMessageVariant::WerewolfTrackingResult { tracked_player: 1, players }, .. }] => {
                let mut sorted = players.clone();
                sorted.sort();
                assert_eq!(sorted, vec![2, 3, 4]);
                if !orders.contains(players) {
                    orders.push(players.clone());
                }
            }
            other => panic!("unexpected effects {:?}", other),
        }
    }
    assert!(orders.len() > 1);
}

#[test]
fn reeducator_draws_an_enabled_support_role() {
    let mut game = game_of(vec![player(Role::Reeducator)]);
    assert_eq!(Reeducator::default_role(&game), None);
    game.settings.enabled_roles = VecSet::from_vec(vec![Role::Reeducator, Role::Framer, Role::Forger, Role::Goon]);
    let mut seen = Vec::new();
    for _ in 0..200 {
        let r = Reeducator::default_role(&game).unwrap();
        assert!(r == Role::Framer || r == Role::Forger);
        if !seen.contains(&r) {
            seen.push(r);
        }
    }
    assert_eq!(seen.len(), 2);
}

#[test]
fn telepath_reads_each_visited_players_messages_in_order() {
    let mut players = vec![player(Role::Telepath), player(Role::Villager), player(Role::Goon)];
    players[0].night_visits.push(visit(0, 1, Role::Telepath, false));
    players[0].night_visits.push(visit(0, 2, Role::Telepath, false));
    players[1].night_messages.push(ChatMessageVariant::RoleBlocked { immune: false });
    players[1].night_messages.push(ChatMessageVariant::TrackerResult { players: vec![2, 0] });
    let game = game_of(players);
    let to_me = |message: ChatMessageVariant| Effect::NightMessage { to: p(0), message };
    assert_eq!(
        Telepath.do_night_action(&game, p(0), Priority::StealMessages),
        vec![
            to_me(ChatMessageVariant::ReceivedMessagesStart { recipient: p(1) }),
            to_me(ChatMessageVariant::TargetsMessage { message: Box::new(ChatMessageVariant::RoleBlocked { immune: false }) }),
            to_me(ChatMessageVariant::TargetsMessage { message: Box::new(ChatMessageVariant::TrackerResult { players: vec![2, 0] }) }),
            to_me(ChatMessageVariant::ReceivedMessagesEnd),
            to_me(ChatMessageVariant::ReceivedMessagesStart { recipient: p(2) }),
            to_me(ChatMessageVariant::ReceivedMessagesEnd),
        ]
    );
    assert_eq!(game.players[1].night_messages.len(), 2);
}

#[test]
fn reporter_interview_controller_starts_empty() {
    let game = game_of(vec![player(Role::Reporter), player(Role::Villager)]);
    let controllers = Reporter::default().controller_parameters_map(&game, p(0));
    match &controllers[0].default_selection {
        Some(AbilitySelection::PlayerList(list)) => assert!(list.is_empty()),
        _ => panic!("interview controller has no empty default"),
    }
}

#[test]
fn steward_clears_guard_messages_of_attacked_protectees() {
    let mut players = vec![player(Role::Steward), player(Role::Villager), player(Role::Doctor)];
    players[1].night_attacked = true;
    players[1].night_messages = vec![
        ChatMessageVariant::YouWereGuarded,
        ChatMessageVariant::RoleBlocked { immune: false },
        ChatMessageVariant::YouSurvivedAttack,
    ];
    players[2].night_messages = vec![ChatMessageVariant::YouWereGuarded];
    let game = game_of(players);
    let steward = Steward { self_heals_remaining: 1, target_healed_refs: vec![p(1), p(2)], previous_input: Vec::new() };
    let (_, effects) = steward.on_midnight(&game, p(0), OnMidnightPriority::DeleteMessages);
    assert_eq!(
        effects,
        vec![Effect::SetNightMessages { player: p(1), messages: vec![ChatMessageVariant::RoleBlocked { immune: false }] }]
    );
}

#[test]
fn vigilante_bound_to_suicide_only_after_killing_a_loyal_townsperson() {
    let mut players = vec![player(Role::Vigilante), player(Role::Villager), player(Role::Goon)];
    players[1].loyalist_for_town = true;
    players[0].night_visits.push(visit(0, 1, Role::Vigilante, true));
    let game = game_of(players);
    let vig = Vigilante { state: VigilanteState::Loaded { bullets: 2, night_selection: Some(p(1)) } };
    let (after, effects) = vig.do_night_action(&game, p(0), Priority::Kill);
    assert_eq!(after.state, VigilanteState::Loaded { bullets: 1, night_selection: Some(p(1)) });
    assert_eq!(effects.len(), 1);
    assert_eq!(after.after_shot(&game, p(1), true).state, VigilanteState::WillSuicide);
    assert_eq!(after.after_shot(&game, p(1), false).state, after.state);
    assert_eq!(after.after_shot(&game, p(2), true).state, after.state);
}

#[test]
fn recruiter_count_follows_the_outcome() {
    let mut game = game_of(vec![player(Role::Recruiter), player(Role::Villager)]);
    let r = Recruiter { recruits_remaining: 2 };
    assert_eq!(r.after_night_ability(&game, p(0), true).recruits_remaining, 3);
    assert_eq!(r.after_night_ability(&game, p(0), false).recruits_remaining, 2);
    game.saved_controllers.push((ControllerID::role(p(0), Role::Recruiter, 1), AbilitySelection::Integer(1)));
    assert_eq!(r.after_night_ability(&game, p(0), true).recruits_remaining, 1);
    game.players[0].night_visits.push(visit(0, 1, Role::Recruiter, false));
    assert_eq!(r.on_midnight(&game, p(0), OnMidnightPriority::Kill), vec![Effect::Recruit { target: p(1) }]);
}

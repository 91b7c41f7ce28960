use town_roles::game::attack_power::DefensePower;
use town_roles::game::chat::ChatMessageVariant;
use town_roles::game::phase::PhaseType;
use town_roles::game::player::{PlayerData, PlayerReference};
use town_roles::game::role::Role;
use town_roles::game::role_list::{RoleList, RoleOutline};
use town_roles::game::role_outline_reference::RoleOutlineReference;
use town_roles::game::selection_type::{AbilityInput, TwoRoleOutlineOptionInput};
use town_roles::game::settings::{PhaseTimeSettings, Settings};
use town_roles::game::spectator::spectator_pointer::SpectatorPointer;
use town_roles::game::spectator::{ClientConnection, Spectator, SpectatorInitializeParameters};
use town_roles::game::Game;
use town_roles::sort::sort_by_key;
use town_roles::vec_set::VecSet;

fn empty_game(outlines: usize) -> Game {
    let mut role_list = Vec::new();
    for _ in 0..outlines {
        role_list.push(RoleOutline::new_exact(Role::Villager));
    }
    Game {
        day_number: 1,
        phase: PhaseType::Briefing,
        player_on_trial: None,
        players: Vec::<PlayerData>::new(),
        settings: Settings {
            role_list: RoleList(role_list),
            phase_times: PhaseTimeSettings::default(),
            enabled_roles: VecSet::new(),
            scheduled_nominations: false,
        },
        saved_controllers: Vec::new(),
        assignments: Vec::new(),
        role_assignment_gen: Vec::new(),
        spectators: Vec::new(),
        spectator_chat_messages: Vec::new(),
        cult_next_ability_kill: false,
        tags: Vec::new(),
        ticking: true,
    }
}

fn player_with(role: Role) -> PlayerData {
    PlayerData {
        alive: true,
        role,
        loyalist_for_town: false,
        loyalist_for_politician: false,
        on_nice_list: false,
        on_naughty_list: false,
        win_condition_is_conclusion_list: false,
        win_conclusions: Vec::new(),
        suspicious_to_confused: false,
        keeps_game_running: false,
        ability_deactivated_from_death: false,
        detained: false,
        confused: false,
        has_innocent_aura: false,
        has_suspicious_aura: false,
        night_blocked: false,
        night_silenced: false,
        vampire_tracked: false,
        is_marionette: false,
        night_died: false,
        night_attacked: false,
        chosen_targets: Vec::new(),
        defense: DefensePower::NoDefense,
        in_mafia: false,
        guiltied_today: false,
        won_game: false,
        grave_role: None,
        will: String::new(),
        night_visits: Vec::new(),
        night_messages: Vec::new(),
    }
}

fn message(i: u8) -> ChatMessageVariant {
    ChatMessageVariant::MayorRevealed { player_index: i }
}

fn spectator(connection: ClientConnection) -> Spectator {
    Spectator::new(SpectatorInitializeParameters { connection, host: false })
}

#[test]
fn vec_set_keeps_first_insertion_order_without_repeats() {
    let mut s: VecSet<PlayerReference> = VecSet::new();
    assert!(s.is_empty());
    for i in [3u8, 1, 3, 2, 1] {
        s.insert(PlayerReference::new(i));
    }
    let idx: Vec<u8> = s.as_vec().iter().map(|p| p.index()).collect();
    assert_eq!(idx, vec![3, 1, 2]);
    assert_eq!(s.len(), 3);
    assert!(s.contains(&PlayerReference::new(2)));
    s.remove(&PlayerReference::new(1));
    let idx: Vec<u8> = s.as_vec().iter().map(|p| p.index()).collect();
    assert_eq!(idx, vec![3, 2]);
    assert!(!s.contains(&PlayerReference::new(1)));
}

#[test]
fn vec_set_from_vec_drops_later_repeats() {
    let s = VecSet::from_vec(vec![Role::Jailor, Role::Spy, Role::Jailor, Role::Goon, Role::Spy]);
    assert_eq!(s.as_vec(), &vec![Role::Jailor, Role::Spy, Role::Goon]);
    let d = s.duplicate();
    assert!(d.same_as(&s));
    assert!(!d.same_as(&VecSet::with_first(Role::Jailor)));
    assert!(!VecSet::from_vec(vec![Role::Spy, Role::Jailor]).same_as(&VecSet::from_vec(vec![Role::Jailor, Role::Spy])));
}

#[test]
fn sort_by_key_is_stable() {
    let items = vec![((2u64, 0u64), 'a'), ((1, 5), 'b'), ((2, 0), 'c'), ((1, 1), 'd'), ((0, 9), 'e')];
    let sorted: Vec<char> = sort_by_key(items).into_iter().map(|p| p.1).collect();
    assert_eq!(sorted, vec!['e', 'd', 'b', 'a', 'c']);
    assert!(sort_by_key(Vec::<((u64, u64), u8)>::new()).is_empty());
}

#[test]
fn spectator_chat_is_sent_in_chunks_of_five() {
    let mut game = empty_game(0);
    game.spectators.push(spectator(ClientConnection::Connected));
    for i in 0..12 {
        game.spectator_chat_messages.push(message(i));
    }
    let sp = SpectatorPointer::new(0);
    sp.requeue_chat_messages(&mut game);
    assert_eq!(game.spectators[0].queued_chat_messages.len(), 12);
    let packets = sp.send_chat_messages(&mut game);
    assert_eq!(packets.len(), 3);
    assert_eq!(packets[0], (0..5).map(message).collect::<Vec<_>>());
    assert_eq!(packets[1], (5..10).map(message).collect::<Vec<_>>());
    assert_eq!(packets[2], vec![message(10), message(11)]);
    assert!(game.spectators[0].queued_chat_messages.is_empty());
    assert!(sp.send_chat_messages(&mut game).is_empty());
}

#[test]
fn missing_spectator_is_left_alone() {
    let mut game = empty_game(0);
    game.spectator_chat_messages.push(message(1));
    let sp = SpectatorPointer::new(3);
    sp.requeue_chat_messages(&mut game);
    assert!(sp.send_chat_messages(&mut game).is_empty());
    assert!(sp.deref(&game).is_none());
    assert_eq!(sp.connection(&game), ClientConnection::Disconnected);
    assert!(sp.tick(&mut game).is_empty());
}

#[test]
fn spectators_are_walked_in_order() {
    let mut game = empty_game(0);
    game.spectators.push(spectator(ClientConnection::Connected));
    game.spectators.push(spectator(ClientConnection::CouldReconnect));
    let mut it = SpectatorPointer::all_spectators(&game);
    assert_eq!(it.size_hint(), (2, Some(2)));
    let a = it.next().unwrap();
    let b = it.next().unwrap();
    assert!(it.next().is_none());
    assert!(a.is_connected(&game));
    assert!(!b.is_connected(&game));
    assert_eq!(b.index(), 1);
}

#[test]
fn new_spectator_has_nothing_queued() {
    let s = spectator(ClientConnection::CouldReconnect);
    assert_eq!(s.connection, ClientConnection::CouldReconnect);
    assert!(!s.fast_forward_vote);
    assert!(s.queued_chat_messages.is_empty());
}

#[test]
fn outline_references_exist_only_within_the_role_list() {
    let game = empty_game(3);
    assert!(RoleOutlineReference::new(&game, 2).is_some());
    assert!(RoleOutlineReference::new(&game, 3).is_none());
    let r = RoleOutlineReference::new(&game, 1).unwrap();
    assert_eq!(r.index(), 1);
    assert_eq!(r.deref(&game).get_all_roles(), vec![Role::Villager]);
    let mut it = RoleOutlineReference::all_outlines(&game);
    let mut seen = Vec::new();
    while let Some(o) = it.next() {
        seen.push(o.index());
    }
    assert_eq!(seen, vec![0, 1, 2]);
}

#[test]
fn outline_pick_skips_given_outlines_and_repeats() {
    let mut game = empty_game(3);
    game.players.push(player_with(Role::Auditor));
    game.players.push(player_with(Role::Ojo));
    let auditor = PlayerReference::new(0);
    let ojo = PlayerReference::new(1);
    let o0 = RoleOutlineReference::new(&game, 0);
    let o1 = RoleOutlineReference::new(&game, 1);
    let o2 = RoleOutlineReference::new(&game, 2);
    let mut chosen = TwoRoleOutlineOptionInput(None, None);
    AbilityInput::Auditor { input: TwoRoleOutlineOptionInput(o0, o1) }.on_client_message(&game, auditor, &mut chosen, &vec![]);
    assert_eq!(chosen, TwoRoleOutlineOptionInput(o0, o1));
    AbilityInput::Auditor { input: TwoRoleOutlineOptionInput(o2, o2) }.on_client_message(&game, auditor, &mut chosen, &vec![]);
    assert_eq!(chosen, TwoRoleOutlineOptionInput(o2, None));
    let given = vec![o1.unwrap()];
    AbilityInput::OjoInvestigate { input: TwoRoleOutlineOptionInput(o1, o0) }.on_client_message(&game, ojo, &mut chosen, &given);
    assert_eq!(chosen, TwoRoleOutlineOptionInput(o2, o0));
    AbilityInput::OjoInvestigate { input: TwoRoleOutlineOptionInput(None, None) }.on_client_message(&game, ojo, &mut chosen, &given);
    assert_eq!(chosen, TwoRoleOutlineOptionInput(None, None));
}

#[test]
fn outline_pick_from_the_wrong_role_changes_nothing() {
    let mut game = empty_game(3);
    game.players.push(player_with(Role::Auditor));
    let o0 = RoleOutlineReference::new(&game, 0);
    let mut chosen = TwoRoleOutlineOptionInput(None, None);
    AbilityInput::OjoInvestigate { input: TwoRoleOutlineOptionInput(o0, None) }
        .on_client_message(&game, PlayerReference::new(0), &mut chosen, &vec![]);
    assert_eq!(chosen, TwoRoleOutlineOptionInput(None, None));
    AbilityInput::Auditor { input: TwoRoleOutlineOptionInput(o0, None) }
        .on_client_message(&game, PlayerReference::new(5), &mut chosen, &vec![]);
    assert_eq!(chosen, TwoRoleOutlineOptionInput(None, None));
}

#[test]
fn tick_sends_queued_chat_only_to_connected_spectators() {
    let mut game = empty_game(0);
    game.spectators.push(spectator(ClientConnection::Connected));
    game.spectators.push(spectator(ClientConnection::Disconnected));
    for i in 0..7 {
        game.spectator_chat_messages.push(message(i));
    }
    let a = SpectatorPointer::new(0);
    let b = SpectatorPointer::new(1);
    a.requeue_chat_messages(&mut game);
    b.requeue_chat_messages(&mut game);
    assert_eq!(game.spectators[0].queued_chat_messages, (0..7).map(message).collect::<Vec<_>>());
    let sent = a.tick(&mut game);
    assert_eq!(sent, vec![(0..5).map(message).collect::<Vec<_>>(), vec![message(5), message(6)]]);
    assert!(game.spectators[0].queued_chat_messages.is_empty());
    assert!(b.tick(&mut game).is_empty());
    assert_eq!(game.spectators[1].queued_chat_messages.len(), 7);
}

#[test]
fn deref_mut_changes_only_that_spectator() {
    let mut game = empty_game(0);
    game.spectators.push(spectator(ClientConnection::Connected));
    game.spectators.push(spectator(ClientConnection::Connected));
    match SpectatorPointer::new(1).deref_mut(&mut game) {
        Some(s) => s.fast_forward_vote = true,
        None => panic!("spectator 1 missing"),
    }
    assert!(game.spectators[1].fast_forward_vote);
    assert!(!game.spectators[0].fast_forward_vote);
    assert!(SpectatorPointer::new(2).deref_mut(&mut game).is_none());
}

#[test]
fn repeating_data_is_the_queued_chat() {
    let mut game = empty_game(0);
    game.spectators.push(spectator(ClientConnection::Connected));
    game.spectators[0].queued_chat_messages = (0..6).map(message).collect();
    let sent = SpectatorPointer::new(0).send_repeating_data(&mut game);
    assert_eq!(sent, vec![(0..5).map(message).collect::<Vec<_>>(), vec![message(5)]]);
    assert!(game.spectators[0].queued_chat_messages.is_empty());
}

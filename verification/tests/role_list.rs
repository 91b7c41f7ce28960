use town_roles::game::game_conclusion::GameConclusion;
use town_roles::game::insider_group::InsiderGroupID;
use town_roles::game::role::Role;
use town_roles::game::role_list::{
    role_can_generate, RoleAssignment, RoleList, RoleOutline, RoleOutlineOption,
    RoleOutlineOptionInsiderGroups, RoleOutlineOptionRoles, RoleOutlineOptionWinCondition, RoleSet,
};
use town_roles::vec_set::VecSet;
use vec1::Vec1;

fn roles_of(set: RoleSet) -> Vec<Role> {
    set.get_roles().as_vec().clone()
}

fn option_of(roles: RoleOutlineOptionRoles) -> RoleOutlineOption {
    RoleOutlineOption {
        roles,
        win_condition: RoleOutlineOptionWinCondition::RoleDefault,
        insider_groups: RoleOutlineOptionInsiderGroups::RoleDefault,
    }
}

fn outline_of(options: Vec<RoleOutlineOption>) -> RoleOutline {
    RoleOutline { options: Vec1::try_from_vec(options).unwrap() }
}

fn enabled(roles: &[Role]) -> VecSet<Role> {
    VecSet::from_vec(roles.to_vec())
}

fn set_option(set: RoleSet) -> RoleOutlineOption {
    option_of(RoleOutlineOptionRoles::RoleSet { role_set: set })
}

fn role_option(role: Role) -> RoleOutlineOption {
    option_of(RoleOutlineOptionRoles::Role { role })
}

fn option_roles(o: &RoleOutlineOption) -> RoleOutlineOptionRoles {
    o.roles
}

#[test]
fn town_investigative_lists_its_roles_in_order() {
    assert_eq!(
        roles_of(RoleSet::TownInvestigative),
        vec![
            Role::Detective,
            Role::Philosopher,
            Role::Gossip,
            Role::Psychic,
            Role::Auditor,
            Role::Spy,
            Role::Lookout,
            Role::Tracker,
            Role::Snoop,
            Role::TallyClerk
        ]
    );
}

#[test]
fn cult_set_holds_three_roles() {
    assert_eq!(roles_of(RoleSet::Cult), vec![Role::Apostle, Role::Disciple, Role::Zealot]);
}

#[test]
fn town_starts_with_its_own_roles_then_town_common() {
    let town = roles_of(RoleSet::Town);
    assert_eq!(&town[..3], &[Role::Jailor, Role::Villager, Role::Drunk]);
    let common = roles_of(RoleSet::TownCommon);
    assert_eq!(&town[3..], &common[..]);
}

#[test]
fn town_common_is_the_four_town_families() {
    let mut expected = roles_of(RoleSet::TownInvestigative);
    expected.extend(roles_of(RoleSet::TownProtective));
    expected.extend(roles_of(RoleSet::TownKilling));
    expected.extend(roles_of(RoleSet::TownSupport));
    assert_eq!(roles_of(RoleSet::TownCommon), expected);
}

#[test]
fn mafia_contains_its_killing_and_support_roles() {
    let mafia = roles_of(RoleSet::Mafia);
    for r in roles_of(RoleSet::MafiaKilling).into_iter().chain(roles_of(RoleSet::MafiaSupport)) {
        assert!(mafia.contains(&r));
    }
    assert!(mafia.contains(&Role::Goon));
    assert!(!mafia.contains(&Role::Jailor));
}

#[test]
fn any_set_holds_every_role_once() {
    let any = roles_of(RoleSet::Any);
    assert_eq!(any, Role::values());
    for (i, a) in any.iter().enumerate() {
        for b in &any[i + 1..] {
            assert_ne!(a, b);
        }
    }
}

#[test]
fn every_set_is_within_any() {
    let any = roles_of(RoleSet::Any);
    let sets = [
        RoleSet::Town,
        RoleSet::TownCommon,
        RoleSet::Mafia,
        RoleSet::Cult,
        RoleSet::Fiends,
        RoleSet::Neutral,
        RoleSet::Minions,
    ];
    for s in sets {
        for r in roles_of(s) {
            assert!(any.contains(&r));
        }
    }
}

#[test]
fn role_option_is_subset_of_its_set() {
    let spy_only = RoleOutlineOptionRoles::Role { role: Role::Spy };
    let inv = RoleOutlineOptionRoles::RoleSet { role_set: RoleSet::TownInvestigative };
    assert!(spy_only.is_subset(&inv));
    assert!(!inv.is_subset(&spy_only));
    let town = RoleOutlineOptionRoles::RoleSet { role_set: RoleSet::Town };
    assert!(inv.is_subset(&town));
    let mafia = RoleOutlineOptionRoles::RoleSet { role_set: RoleSet::Mafia };
    assert!(!inv.is_subset(&mafia));
}

#[test]
fn default_option_roles_is_any() {
    assert_eq!(RoleOutlineOptionRoles::default(), RoleOutlineOptionRoles::RoleSet { role_set: RoleSet::Any });
}

#[test]
fn limited_role_cannot_generate_twice() {
    let e = enabled(&[Role::Veteran, Role::Villager]);
    assert!(role_can_generate(Role::Veteran, &e, &[]));
    assert!(!role_can_generate(Role::Veteran, &e, &[Role::Veteran]));
    assert!(role_can_generate(Role::Villager, &e, &[Role::Villager, Role::Villager]));
}

#[test]
fn disabled_role_cannot_generate() {
    let e = enabled(&[Role::Villager]);
    assert!(!role_can_generate(Role::Jailor, &e, &[]));
}

#[test]
fn maximum_counts() {
    assert_eq!(Role::Mortician.maximum_count(), Some(1));
    assert_eq!(Role::Zealot.maximum_count(), Some(1));
    assert_eq!(Role::Villager.maximum_count(), None);
}

#[test]
fn exact_outline_offers_one_assignment() {
    let o = RoleOutline::new_exact(Role::Jailor);
    let a = o.get_role_assignments();
    assert_eq!(a.len(), 1);
    assert_eq!(a[0].role, Role::Jailor);
    assert!(a[0].win_condition.is_default());
    assert!(a[0].insider_groups.is_default());
    assert_eq!(o.get_all_roles(), vec![Role::Jailor]);
}

#[test]
fn outline_assignments_follow_options_in_order() {
    let o = outline_of(vec![
        role_option(Role::Villager),
        RoleOutlineOption {
            roles: RoleOutlineOptionRoles::RoleSet { role_set: RoleSet::Cult },
            win_condition: RoleOutlineOptionWinCondition::GameConclusionReached {
                win_if_any: VecSet::with_first(GameConclusion::Town),
            },
            insider_groups: RoleOutlineOptionInsiderGroups::Custom {
                insider_groups: VecSet::with_first(InsiderGroupID::Mafia),
            },
        },
    ]);
    assert_eq!(o.get_all_roles(), vec![Role::Villager, Role::Apostle, Role::Disciple, Role::Zealot]);
    let a = o.get_role_assignments();
    assert_eq!(a.len(), 4);
    assert!(a[0].win_condition.is_default());
    assert!(!a[2].win_condition.is_default());
    assert!(!a[3].insider_groups.is_default());
    assert_eq!(a[3].role, Role::Zealot);
}

#[test]
fn default_outline_is_any() {
    let o = RoleOutline::default();
    assert_eq!(o.get_all_roles(), Role::values());
}

#[test]
fn random_assignment_comes_from_generatable_roles() {
    let o = outline_of(vec![set_option(RoleSet::Cult)]);
    let e = enabled(&[Role::Apostle, Role::Zealot]);
    for _ in 0..20 {
        let a = o.get_random_role_assignments(&e, &[Role::Zealot]).unwrap();
        assert_eq!(a.role, Role::Apostle);
    }
    assert!(o.get_random_role_assignments(&enabled(&[Role::Zealot]), &[Role::Zealot]).is_none());
}

#[test]
fn random_assignment_draws_each_candidate_sometime() {
    let o = outline_of(vec![role_option(Role::Villager), role_option(Role::Jailor)]);
    let e = enabled(&[Role::Villager, Role::Jailor]);
    let mut seen_v = false;
    let mut seen_j = false;
    for _ in 0..200 {
        match o.get_random_role_assignments(&e, &[]).unwrap().role {
            Role::Villager => seen_v = true,
            Role::Jailor => seen_j = true,
            _ => panic!("drawn role not offered"),
        }
    }
    assert!(seen_v && seen_j);
}

#[test]
fn role_list_draws_respect_limits() {
    let list = RoleList(vec![
        RoleOutline::new_exact(Role::Veteran),
        outline_of(vec![role_option(Role::Veteran), role_option(Role::Villager)]),
    ]);
    let e = enabled(&[Role::Veteran, Role::Villager]);
    for _ in 0..20 {
        let drawn: Vec<RoleAssignment> = list.create_random_role_assignments(&e).unwrap();
        assert_eq!(drawn.len(), 2);
        assert_eq!(drawn[0].role, Role::Veteran);
        assert_eq!(drawn[1].role, Role::Villager);
    }
}

#[test]
fn role_list_fails_when_an_outline_runs_dry() {
    let list = RoleList(vec![RoleOutline::new_exact(Role::Veteran), RoleOutline::new_exact(Role::Veteran)]);
    let e = enabled(&[Role::Veteran]);
    assert!(list.create_random_role_assignments(&e).is_none());
}

#[test]
fn simplify_drops_covered_options_and_repeats() {
    let mut o = outline_of(vec![
        role_option(Role::Spy),
        set_option(RoleSet::TownInvestigative),
        set_option(RoleSet::TownInvestigative),
        role_option(Role::Goon),
    ]);
    o.simplify();
    let kept: Vec<RoleOutlineOptionRoles> = o.options.iter().map(option_roles).collect();
    assert_eq!(
        kept,
        vec![
            RoleOutlineOptionRoles::RoleSet { role_set: RoleSet::TownInvestigative },
            RoleOutlineOptionRoles::Role { role: Role::Goon }
        ]
    );
}

#[test]
fn simplify_sorts_larger_options_first() {
    let mut o = outline_of(vec![role_option(Role::Goon), set_option(RoleSet::Cult), set_option(RoleSet::Neutral)]);
    o.simplify();
    let kept: Vec<RoleOutlineOptionRoles> = o.options.iter().map(option_roles).collect();
    assert_eq!(
        kept,
        vec![
            RoleOutlineOptionRoles::RoleSet { role_set: RoleSet::Neutral },
            RoleOutlineOptionRoles::RoleSet { role_set: RoleSet::Cult },
            RoleOutlineOptionRoles::Role { role: Role::Goon }
        ]
    );
}

#[test]
fn simplify_keeps_default_win_condition_before_custom() {
    let custom = RoleOutlineOption {
        roles: RoleOutlineOptionRoles::Role { role: Role::Goon },
        win_condition: RoleOutlineOptionWinCondition::GameConclusionReached {
            win_if_any: VecSet::with_first(GameConclusion::Mafia),
        },
        insider_groups: RoleOutlineOptionInsiderGroups::RoleDefault,
    };
    let plain = role_option(Role::Jailor);
    let mut o = outline_of(vec![custom, plain]);
    o.simplify();
    assert_eq!(o.options.len(), 2);
    assert_eq!(o.options[0].roles, RoleOutlineOptionRoles::Role { role: Role::Jailor });
    assert!(!o.options[1].win_condition.is_default());
}

#[test]
fn role_list_simplify_each_outline() {
    let mut list = RoleList(vec![
        outline_of(vec![role_option(Role::Spy), set_option(RoleSet::TownInvestigative)]),
        RoleOutline::new_exact(Role::Jailor),
    ]);
    list.simplify();
    assert_eq!(list.0.len(), 2);
    assert_eq!(list.0[0].options.len(), 1);
    assert_eq!(list.0[0].options[0].roles, RoleOutlineOptionRoles::RoleSet { role_set: RoleSet::TownInvestigative });
    assert_eq!(list.0[1].get_all_roles(), vec![Role::Jailor]);
}

#[test]
fn role_list_sort_by_assignment_count() {
    let mut list = RoleList(vec![
        outline_of(vec![set_option(RoleSet::Cult)]),
        RoleOutline::new_exact(Role::Jailor),
        outline_of(vec![set_option(RoleSet::Town)]),
        RoleOutline::new_exact(Role::Villager),
    ]);
    list.sort();
    let firsts: Vec<Role> = list.0.iter().map(|o| o.get_all_roles()[0]).collect();
    assert_eq!(firsts, vec![Role::Jailor, Role::Villager, Role::Apostle, Role::Jailor]);
    assert_eq!(list.0[3].get_all_roles().len(), roles_of(RoleSet::Town).len());
}

#[test]
fn described_option_defaults_when_fields_are_missing() {
    let o = RoleOutlineOption::from_described_fields(None, None, None, None);
    assert_eq!(o.roles, RoleOutlineOptionRoles::RoleSet { role_set: RoleSet::Any });
    assert!(o.win_condition.is_default());
    assert!(o.insider_groups.is_default());
}

#[test]
fn described_role_set_field_takes_precedence_even_when_malformed() {
    let o = RoleOutlineOption::from_described_fields(None, None, Some(None), Some(Some(Role::Jailor)));
    assert_eq!(o.roles, RoleOutlineOptionRoles::RoleSet { role_set: RoleSet::Any });
    let o = RoleOutlineOption::from_described_fields(None, None, Some(Some(RoleSet::Cult)), Some(Some(Role::Jailor)));
    assert_eq!(o.roles, RoleOutlineOptionRoles::RoleSet { role_set: RoleSet::Cult });
    let o = RoleOutlineOption::from_described_fields(None, None, None, Some(Some(Role::Jailor)));
    assert_eq!(o.roles, RoleOutlineOptionRoles::Role { role: Role::Jailor });
    let o = RoleOutlineOption::from_described_fields(None, None, None, Some(None));
    assert_eq!(o.roles, RoleOutlineOptionRoles::RoleSet { role_set: RoleSet::Any });
}

#[test]
fn described_win_condition_and_groups() {
    let o = RoleOutlineOption::from_described_fields(
        Some(Some(VecSet::from_vec(vec![GameConclusion::Town, GameConclusion::NiceList]))),
        Some(None),
        None,
        None,
    );
    match &o.win_condition {
        RoleOutlineOptionWinCondition::GameConclusionReached { win_if_any } => {
            assert_eq!(win_if_any.as_vec(), &vec![GameConclusion::Town, GameConclusion::NiceList])
        }
        RoleOutlineOptionWinCondition::RoleDefault => panic!("win condition lost"),
    }
    assert!(o.insider_groups.is_default());
    let o = RoleOutlineOption::from_described_fields(
        None,
        Some(Some(VecSet::with_first(InsiderGroupID::Cult))),
        None,
        None,
    );
    assert!(!o.insider_groups.is_default());
    assert!(o.win_condition.is_default());
}

#[test]
fn faction_sets_share_no_role() {
    let families = [
        vec![RoleSet::Town, RoleSet::Mafia, RoleSet::Cult, RoleSet::Fiends, RoleSet::Neutral, RoleSet::Minions],
        vec![RoleSet::TownInvestigative, RoleSet::TownProtective, RoleSet::TownKilling, RoleSet::TownSupport],
        vec![RoleSet::MafiaKilling, RoleSet::MafiaSupport],
    ];
    for sets in families.iter() {
        for (i, a) in sets.iter().enumerate() {
            for b in &sets[i + 1..] {
                for r in roles_of(*a) {
                    assert!(!roles_of(*b).contains(&r), "{:?} in {:?} and {:?}", r, a, b);
                }
            }
        }
    }
}

fn single_role_with_win(role: Role, win: Vec<GameConclusion>) -> RoleOutlineOption {
    RoleOutlineOption {
        roles: RoleOutlineOptionRoles::Role { role },
        win_condition: RoleOutlineOptionWinCondition::GameConclusionReached { win_if_any: VecSet::from_vec(win) },
        insider_groups: RoleOutlineOptionInsiderGroups::RoleDefault,
    }
}

#[test]
fn simplify_orders_custom_win_conditions_by_content() {
    let mut o = outline_of(vec![
        single_role_with_win(Role::Goon, vec![GameConclusion::Mafia]),
        single_role_with_win(Role::Spy, vec![GameConclusion::Town, GameConclusion::Cult]),
        single_role_with_win(Role::Jailor, vec![GameConclusion::Town]),
    ]);
    o.simplify();
    let roles: Vec<RoleOutlineOptionRoles> = o.options.iter().map(option_roles).collect();
    assert_eq!(
        roles,
        vec![
            RoleOutlineOptionRoles::Role { role: Role::Jailor },
            RoleOutlineOptionRoles::Role { role: Role::Spy },
            RoleOutlineOptionRoles::Role { role: Role::Goon },
        ]
    );
}

#[test]
fn simplify_orders_custom_insider_groups_by_content() {
    let groups = |role: Role, g: InsiderGroupID| RoleOutlineOption {
        roles: RoleOutlineOptionRoles::Role { role },
        win_condition: RoleOutlineOptionWinCondition::RoleDefault,
        insider_groups: RoleOutlineOptionInsiderGroups::Custom { insider_groups: VecSet::with_first(g) },
    };
    let mut o = outline_of(vec![groups(Role::Goon, InsiderGroupID::Puppeteer), groups(Role::Spy, InsiderGroupID::Mafia)]);
    o.simplify();
    assert_eq!(o.options[0].roles, RoleOutlineOptionRoles::Role { role: Role::Spy });
    assert_eq!(o.options[1].roles, RoleOutlineOptionRoles::Role { role: Role::Goon });
}

#[test]
fn try_simplify_refuses_outlines_whose_options_all_cover_each_other() {
    let mut o = outline_of(vec![
        single_role_with_win(Role::Goon, vec![GameConclusion::Mafia]),
        single_role_with_win(Role::Goon, vec![GameConclusion::Town]),
    ]);
    assert!(!o.can_simplify());
    assert!(!o.try_simplify());
    assert_eq!(o.options.len(), 2);
    let mut list = RoleList(vec![RoleOutline::new_exact(Role::Jailor), o]);
    assert!(!list.try_simplify());
    assert_eq!(list.0[1].options.len(), 2);

    let mut ok = outline_of(vec![role_option(Role::Spy), set_option(RoleSet::TownInvestigative)]);
    assert!(ok.try_simplify());
    assert_eq!(ok.options.len(), 1);
    let mut list = RoleList(vec![RoleOutline::new_exact(Role::Jailor), outline_of(vec![role_option(Role::Spy), set_option(RoleSet::Cult)])]);
    assert!(list.try_simplify());
    assert_eq!(list.0[1].options[0].roles, RoleOutlineOptionRoles::RoleSet { role_set: RoleSet::Cult });
}

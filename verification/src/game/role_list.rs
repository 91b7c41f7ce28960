//! Role lists: the outlines a host picks, the options within each outline,
//! and how roles are drawn from them.

use vstd::prelude::*;
use crate::vec_set::{VecSet, SetItem, dedup, lemma_dedup};
use crate::sort::{SortKey, key_le, stable_sort, sort_by_key, lemma_stable_sort_items, lemma_stable_sort_ordered};
use crate::random::choose_random;
use vec1::Vec1;
use super::role::{Role, all_roles, spec_maximum_count, lemma_all_roles, limited_to_one, lemma_maximum_counts};
use super::game_conclusion::GameConclusion;
use super::insider_group::InsiderGroupID;

verus! {

/// A named family of roles that an outline can draw from.
#[derive(Clone, Copy, PartialEq, Eq, Structural, Debug, Hash)]
pub enum RoleSet {
    Any,
    Town,
    TownCommon,
    TownInvestigative,
    TownProtective,
    TownKilling,
    TownSupport,
    Mafia,
    MafiaSupport,
    MafiaKilling,
    Cult,
    Fiends,
    Neutral,
    Minions,
}

/// The order in which role sets are defined from one another.
pub open spec fn role_set_rank(s: RoleSet) -> nat {
    match s {
        RoleSet::Town => 2,
        RoleSet::TownCommon => 1,
        RoleSet::Mafia => 1,
        _ => 0,
    }
}

/// The roles of a set, before repeats are dropped.
pub open spec fn role_set_list(s: RoleSet) -> Seq<Role>
    decreases role_set_rank(s),
{
    match s {
        RoleSet::Any => all_roles(),
        RoleSet::Town => seq![Role::Jailor, Role::Villager, Role::Drunk] + dedup(role_set_list(RoleSet::TownCommon)),
        RoleSet::TownCommon => dedup(role_set_list(RoleSet::TownInvestigative)) + dedup(role_set_list(RoleSet::TownProtective))
            + dedup(role_set_list(RoleSet::TownKilling)) + dedup(role_set_list(RoleSet::TownSupport)),
        RoleSet::Mafia => seq![Role::Goon, Role::MafiaSupportWildcard, Role::MafiaKillingWildcard]
            + dedup(role_set_list(RoleSet::MafiaKilling)) + dedup(role_set_list(RoleSet::MafiaSupport)),
        RoleSet::TownInvestigative => seq![Role::Detective, Role::Philosopher, Role::Gossip, Role::Psychic, Role::Auditor, Role::Spy, Role::Lookout, Role::Tracker, Role::Snoop, Role::TallyClerk],
        RoleSet::TownProtective => seq![Role::Bodyguard, Role::Cop, Role::Doctor, Role::Bouncer, Role::Engineer, Role::Armorsmith, Role::Steward],
        RoleSet::TownKilling => seq![Role::Vigilante, Role::Veteran, Role::Deputy, Role::Marksman, Role::Rabblerouser],
        RoleSet::TownSupport => seq![Role::Medium, Role::Coxswain, Role::Retributionist, Role::Transporter, Role::Porter, Role::Escort, Role::Mayor, Role::Reporter, Role::Polymath],
        RoleSet::MafiaKilling => seq![Role::Godfather, Role::Counterfeiter, Role::Impostor, Role::Recruiter, Role::Mafioso],
        RoleSet::MafiaSupport => seq![Role::Blackmailer, Role::Informant, Role::Hypnotist, Role::Consort, Role::Forger, Role::Framer, Role::Mortician, Role::Disguiser, Role::MafiaWitch, Role::Necromancer, Role::Reeducator, Role::Ambusher],
        RoleSet::Minions => seq![Role::Witch, Role::Scarecrow, Role::Warper, Role::Kidnapper],
        RoleSet::Neutral => seq![Role::Jester, Role::Revolutionary, Role::Politician, Role::Doomsayer, Role::Martyr, Role::Chronokaiser, Role::SantaClaus, Role::Krampus],
        RoleSet::Fiends => seq![Role::Arsonist, Role::Werewolf, Role::Ojo, Role::Puppeteer, Role::Pyrolisk, Role::Kira, Role::SerialKiller, Role::FiendsWildcard, Role::Spiral, Role::Warden, Role::Yer],
        RoleSet::Cult => seq![Role::Apostle, Role::Disciple, Role::Zealot],
    }
}

/// The roles of a set: its list without repeats, in order of first appearance.
pub open spec fn role_set_roles(s: RoleSet) -> Seq<Role>
{
    dedup(role_set_list(s))
}

/// Appends the items of `set` to `v`.
fn extend_roles(v: &mut Vec<Role>, set: &VecSet<Role>)
    ensures
        final(v)@ == old(v)@ + set@,
{
    let items = set.as_vec();
    let ghost start = v@;
    let mut i: usize = 0;
    while i < items.len()
        invariant
            i <= items@.len(),
            items@ == set@,
            v@ =~= start + items@.take(i as int),
        decreases items@.len() - i,
    {
        v.push(items[i]);
        i = i + 1;
    }
    assert(items@.take(items@.len() as int) =~= items@);
}

impl RoleSet {
    /// The roles of the set, each once, in the order they are listed.
    pub fn get_roles(&self) -> (r: VecSet<Role>)
        ensures
            r@ == role_set_roles(*self),
            r@.no_duplicates(),
        decreases role_set_rank(*self),
    {
        match self {
            RoleSet::Any => VecSet::from_vec(Role::values()),
            RoleSet::Town => {
                let mut v = vec![Role::Jailor, Role::Villager, Role::Drunk];
                extend_roles(&mut v, &RoleSet::TownCommon.get_roles());
                VecSet::from_vec(v)
            },
            RoleSet::TownCommon => {
                let mut v: Vec<Role> = Vec::new();
                extend_roles(&mut v, &RoleSet::TownInvestigative.get_roles());
                extend_roles(&mut v, &RoleSet::TownProtective.get_roles());
                extend_roles(&mut v, &RoleSet::TownKilling.get_roles());
                extend_roles(&mut v, &RoleSet::TownSupport.get_roles());
                assert(v@ =~= role_set_list(RoleSet::TownCommon));
                VecSet::from_vec(v)
            },
            RoleSet::Mafia => {
                let mut v = vec![Role::Goon, Role::MafiaSupportWildcard, Role::MafiaKillingWildcard];
                extend_roles(&mut v, &RoleSet::MafiaKilling.get_roles());
                extend_roles(&mut v, &RoleSet::MafiaSupport.get_roles());
                VecSet::from_vec(v)
            },
            RoleSet::TownInvestigative => VecSet::from_vec(vec![Role::Detective, Role::Philosopher, Role::Gossip, Role::Psychic, Role::Auditor, Role::Spy, Role::Lookout, Role::Tracker, Role::Snoop, Role::TallyClerk]),
            RoleSet::TownProtective => VecSet::from_vec(vec![Role::Bodyguard, Role::Cop, Role::Doctor, Role::Bouncer, Role::Engineer, Role::Armorsmith, Role::Steward]),
            RoleSet::TownKilling => VecSet::from_vec(vec![Role::Vigilante, Role::Veteran, Role::Deputy, Role::Marksman, Role::Rabblerouser]),
            RoleSet::TownSupport => VecSet::from_vec(vec![Role::Medium, Role::Coxswain, Role::Retributionist, Role::Transporter, Role::Porter, Role::Escort, Role::Mayor, Role::Reporter, Role::Polymath]),
            RoleSet::MafiaKilling => VecSet::from_vec(vec![Role::Godfather, Role::Counterfeiter, Role::Impostor, Role::Recruiter, Role::Mafioso]),
            RoleSet::MafiaSupport => VecSet::from_vec(vec![Role::Blackmailer, Role::Informant, Role::Hypnotist, Role::Consort, Role::Forger, Role::Framer, Role::Mortician, Role::Disguiser, Role::MafiaWitch, Role::Necromancer, Role::Reeducator, Role::Ambusher]),
            RoleSet::Minions => VecSet::from_vec(vec![Role::Witch, Role::Scarecrow, Role::Warper, Role::Kidnapper]),
            RoleSet::Neutral => VecSet::from_vec(vec![Role::Jester, Role::Revolutionary, Role::Politician, Role::Doomsayer, Role::Martyr, Role::Chronokaiser, Role::SantaClaus, Role::Krampus]),
            RoleSet::Fiends => VecSet::from_vec(vec![Role::Arsonist, Role::Werewolf, Role::Ojo, Role::Puppeteer, Role::Pyrolisk, Role::Kira, Role::SerialKiller, Role::FiendsWildcard, Role::Spiral, Role::Warden, Role::Yer]),
            RoleSet::Cult => VecSet::from_vec(vec![Role::Apostle, Role::Disciple, Role::Zealot]),
        }
    }
}

/// An element of a concatenation comes from one of its parts.
pub proof fn lemma_concat_contains<T>(a: Seq<T>, b: Seq<T>, x: T)
    ensures
        (a + b).contains(x) <==> (a.contains(x) || b.contains(x)),
{
    if a.contains(x) {
        let i = choose|i: int| 0 <= i < a.len() && a[i] == x;
        assert((a + b)[i] == x);
    }
    if b.contains(x) {
        let i = choose|i: int| 0 <= i < b.len() && b[i] == x;
        assert((a + b)[a.len() + i] == x);
    }
    if (a + b).contains(x) {
        let i = choose|i: int| 0 <= i < (a + b).len() && (a + b)[i] == x;
        if i < a.len() {
            assert(a[i] == x);
        } else {
            assert(b[i - a.len()] == x);
        }
    }
}

/// The role sets nest: each of the four town families lies within the common
/// town roles, which lie within the town roles; the mafia's killing and
/// support roles lie within the mafia's; and every role lies within `Any`.
pub proof fn lemma_role_set_hierarchy(r: Role)
    ensures
        role_set_roles(RoleSet::TownInvestigative).contains(r) ==> role_set_roles(RoleSet::TownCommon).contains(r),
        role_set_roles(RoleSet::TownProtective).contains(r) ==> role_set_roles(RoleSet::TownCommon).contains(r),
        role_set_roles(RoleSet::TownKilling).contains(r) ==> role_set_roles(RoleSet::TownCommon).contains(r),
        role_set_roles(RoleSet::TownSupport).contains(r) ==> role_set_roles(RoleSet::TownCommon).contains(r),
        role_set_roles(RoleSet::TownCommon).contains(r) ==> role_set_roles(RoleSet::Town).contains(r),
        role_set_roles(RoleSet::MafiaKilling).contains(r) ==> role_set_roles(RoleSet::Mafia).contains(r),
        role_set_roles(RoleSet::MafiaSupport).contains(r) ==> role_set_roles(RoleSet::Mafia).contains(r),
        role_set_roles(RoleSet::Any).contains(r),
{
    broadcast use vstd::seq_lib::group_seq_properties;
    lemma_dedup(role_set_list(RoleSet::TownInvestigative));
    lemma_dedup(role_set_list(RoleSet::TownProtective));
    lemma_dedup(role_set_list(RoleSet::TownKilling));
    lemma_dedup(role_set_list(RoleSet::TownSupport));
    lemma_dedup(role_set_list(RoleSet::TownCommon));
    lemma_dedup(role_set_list(RoleSet::Town));
    lemma_dedup(role_set_list(RoleSet::MafiaKilling));
    lemma_dedup(role_set_list(RoleSet::MafiaSupport));
    lemma_dedup(role_set_list(RoleSet::Mafia));
    lemma_dedup(role_set_list(RoleSet::Any));
    lemma_all_roles();
    assert(role_set_list(RoleSet::Any) == all_roles());
    assert(all_roles().contains(r));
    let inv = role_set_roles(RoleSet::TownInvestigative);
    let pro = role_set_roles(RoleSet::TownProtective);
    let kil = role_set_roles(RoleSet::TownKilling);
    let sup = role_set_roles(RoleSet::TownSupport);
    lemma_concat_contains(inv, pro, r);
    lemma_concat_contains(inv + pro, kil, r);
    lemma_concat_contains(inv + pro + kil, sup, r);
    lemma_concat_contains(seq![Role::Jailor, Role::Villager, Role::Drunk], role_set_roles(RoleSet::TownCommon), r);
    let mk = role_set_roles(RoleSet::MafiaKilling);
    let ms = role_set_roles(RoleSet::MafiaSupport);
    let lead = seq![Role::Goon, Role::MafiaSupportWildcard, Role::MafiaKillingWildcard];
    lemma_concat_contains(lead, mk, r);
    lemma_concat_contains(lead + mk, ms, r);
}

/// Which of the town, mafia, cult, fiends, neutral and minion sets a role belongs to, by position.
pub open spec fn faction_index(r: Role) -> int {
    match r {
        Role::Jailor | Role::Villager | Role::Drunk | Role::Detective | Role::Philosopher | Role::Gossip | Role::Psychic | Role::Auditor | Role::Spy | Role::Lookout | Role::Tracker | Role::Snoop | Role::TallyClerk | Role::Bodyguard | Role::Cop | Role::Doctor | Role::Bouncer | Role::Engineer | Role::Armorsmith | Role::Steward | Role::Vigilante | Role::Veteran | Role::Deputy | Role::Marksman | Role::Rabblerouser | Role::Medium | Role::Coxswain | Role::Retributionist | Role::Transporter | Role::Porter | Role::Escort | Role::Mayor | Role::Reporter | Role::Polymath => 0,
        Role::Goon | Role::MafiaSupportWildcard | Role::MafiaKillingWildcard | Role::Godfather | Role::Counterfeiter | Role::Impostor | Role::Recruiter | Role::Mafioso | Role::Blackmailer | Role::Informant | Role::Hypnotist | Role::Consort | Role::Forger | Role::Framer | Role::Mortician | Role::Disguiser | Role::MafiaWitch | Role::Necromancer | Role::Reeducator | Role::Ambusher => 1,
        Role::Apostle | Role::Disciple | Role::Zealot => 2,
        Role::Arsonist | Role::Werewolf | Role::Ojo | Role::Puppeteer | Role::Pyrolisk | Role::Kira | Role::SerialKiller | Role::FiendsWildcard | Role::Spiral | Role::Warden | Role::Yer => 3,
        Role::Jester | Role::Revolutionary | Role::Politician | Role::Doomsayer | Role::Martyr | Role::Chronokaiser | Role::SantaClaus | Role::Krampus => 4,
        Role::Witch | Role::Scarecrow | Role::Warper | Role::Kidnapper => 5,
        _ => 6,
    }
}
/// Which town family (investigative, protective, killing, support) a role belongs to, by position.
pub open spec fn town_family_index(r: Role) -> int {
    match r {
        Role::Detective | Role::Philosopher | Role::Gossip | Role::Psychic | Role::Auditor | Role::Spy | Role::Lookout | Role::Tracker | Role::Snoop | Role::TallyClerk => 0,
        Role::Bodyguard | Role::Cop | Role::Doctor | Role::Bouncer | Role::Engineer | Role::Armorsmith | Role::Steward => 1,
        Role::Vigilante | Role::Veteran | Role::Deputy | Role::Marksman | Role::Rabblerouser => 2,
        Role::Medium | Role::Coxswain | Role::Retributionist | Role::Transporter | Role::Porter | Role::Escort | Role::Mayor | Role::Reporter | Role::Polymath => 3,
        _ => 4,
    }
}
/// Which mafia family (killing, support) a role belongs to, by position.
pub open spec fn mafia_family_index(r: Role) -> int {
    match r {
        Role::Godfather | Role::Counterfeiter | Role::Impostor | Role::Recruiter | Role::Mafioso => 0,
        Role::Blackmailer | Role::Informant | Role::Hypnotist | Role::Consort | Role::Forger | Role::Framer | Role::Mortician | Role::Disguiser | Role::MafiaWitch | Role::Necromancer | Role::Reeducator | Role::Ambusher => 1,
        _ => 2,
    }
}
/// Every role of `s` has index `v` under `f`.
proof fn lemma_family_of_members(s: Seq<Role>, f: spec_fn(Role) -> int, v: int)
    requires
        forall|i: int| 0 <= i < s.len() ==> f(#[trigger] s[i]) == v,
    ensures
        forall|r: Role| #[trigger] s.contains(r) ==> f(r) == v,
{
}

/// The factions' sets share no role; neither do the four town families, nor
/// the mafia's killing and support roles.
pub proof fn lemma_role_sets_disjoint(r: Role)
    ensures
        forall|a: int, b: int|
            0 <= a < b < 6 ==> !(role_set_roles(#[trigger] faction_sets()[a]).contains(r)
                && role_set_roles(#[trigger] faction_sets()[b]).contains(r)),
        forall|a: int, b: int|
            0 <= a < b < 4 ==> !(role_set_roles(#[trigger] town_families()[a]).contains(r)
                && role_set_roles(#[trigger] town_families()[b]).contains(r)),
        !(role_set_roles(RoleSet::MafiaKilling).contains(r) && role_set_roles(RoleSet::MafiaSupport).contains(r)),
{
    lemma_town_members(r);
    lemma_mafia_members(r);
    lemma_other_members(r);
    assert forall|a: int| 0 <= a < 6 && role_set_roles(#[trigger] faction_sets()[a]).contains(r) implies faction_index(r) == a by {
        assert(faction_sets()[0] == RoleSet::Town);
        assert(faction_sets()[1] == RoleSet::Mafia);
        assert(faction_sets()[2] == RoleSet::Cult);
        assert(faction_sets()[3] == RoleSet::Fiends);
        assert(faction_sets()[4] == RoleSet::Neutral);
        assert(faction_sets()[5] == RoleSet::Minions);
    }
    assert forall|a: int| 0 <= a < 4 && role_set_roles(#[trigger] town_families()[a]).contains(r) implies town_family_index(r) == a by {
        assert(town_families()[0] == RoleSet::TownInvestigative);
        assert(town_families()[1] == RoleSet::TownProtective);
        assert(town_families()[2] == RoleSet::TownKilling);
        assert(town_families()[3] == RoleSet::TownSupport);
    }
}

proof fn lemma_town_family_lists()
    ensures
        forall|r: Role| #[trigger] role_set_list(RoleSet::TownInvestigative).contains(r) ==> faction_index(r) == 0 && town_family_index(r) == 0,
        forall|r: Role| #[trigger] role_set_list(RoleSet::TownProtective).contains(r) ==> faction_index(r) == 0 && town_family_index(r) == 1,
        forall|r: Role| #[trigger] role_set_list(RoleSet::TownKilling).contains(r) ==> faction_index(r) == 0 && town_family_index(r) == 2,
        forall|r: Role| #[trigger] role_set_list(RoleSet::TownSupport).contains(r) ==> faction_index(r) == 0 && town_family_index(r) == 3,
        forall|r: Role| #[trigger] town_lead().contains(r) ==> faction_index(r) == 0,
{
    let fi = |x: Role| faction_index(x);
    let ti = |x: Role| town_family_index(x);
    let inv = role_set_list(RoleSet::TownInvestigative);
    let pro = role_set_list(RoleSet::TownProtective);
    let kil = role_set_list(RoleSet::TownKilling);
    let sup = role_set_list(RoleSet::TownSupport);
    let lead = town_lead();
    assert forall|i: int| 0 <= i < inv.len() implies fi(#[trigger] inv[i]) == 0 && ti(inv[i]) == 0 by {}
    assert forall|i: int| 0 <= i < pro.len() implies fi(#[trigger] pro[i]) == 0 && ti(pro[i]) == 1 by {}
    assert forall|i: int| 0 <= i < kil.len() implies fi(#[trigger] kil[i]) == 0 && ti(kil[i]) == 2 by {}
    assert forall|i: int| 0 <= i < sup.len() implies fi(#[trigger] sup[i]) == 0 && ti(sup[i]) == 3 by {}
    assert forall|i: int| 0 <= i < lead.len() implies fi(#[trigger] lead[i]) == 0 by {}
    lemma_family_of_members(inv, fi, 0);
    lemma_family_of_members(pro, fi, 0);
    lemma_family_of_members(kil, fi, 0);
    lemma_family_of_members(sup, fi, 0);
    lemma_family_of_members(lead, fi, 0);
    lemma_family_of_members(inv, ti, 0);
    lemma_family_of_members(pro, ti, 1);
    lemma_family_of_members(kil, ti, 2);
    lemma_family_of_members(sup, ti, 3);
}

/// The town roles and the town families, by index.
proof fn lemma_town_members(r: Role)
    ensures
        role_set_roles(RoleSet::Town).contains(r) ==> faction_index(r) == 0,
        role_set_roles(RoleSet::TownInvestigative).contains(r) ==> town_family_index(r) == 0,
        role_set_roles(RoleSet::TownProtective).contains(r) ==> town_family_index(r) == 1,
        role_set_roles(RoleSet::TownKilling).contains(r) ==> town_family_index(r) == 2,
        role_set_roles(RoleSet::TownSupport).contains(r) ==> town_family_index(r) == 3,
{
    lemma_town_family_lists();
    lemma_dedup(role_set_list(RoleSet::TownInvestigative));
    lemma_dedup(role_set_list(RoleSet::TownProtective));
    lemma_dedup(role_set_list(RoleSet::TownKilling));
    lemma_dedup(role_set_list(RoleSet::TownSupport));
    lemma_dedup(role_set_list(RoleSet::TownCommon));
    lemma_dedup(role_set_list(RoleSet::Town));
    let d_inv = role_set_roles(RoleSet::TownInvestigative);
    let d_pro = role_set_roles(RoleSet::TownProtective);
    let d_kil = role_set_roles(RoleSet::TownKilling);
    let d_sup = role_set_roles(RoleSet::TownSupport);
    let lead = town_lead();
    let inv = role_set_list(RoleSet::TownInvestigative);
    let pro = role_set_list(RoleSet::TownProtective);
    let kil = role_set_list(RoleSet::TownKilling);
    let sup = role_set_list(RoleSet::TownSupport);
    if d_inv.contains(r) {
        assert(dedup(inv).contains(r));
        assert(inv.contains(r));
    }
    if d_pro.contains(r) {
        assert(dedup(pro).contains(r));
        assert(pro.contains(r));
    }
    if d_kil.contains(r) {
        assert(dedup(kil).contains(r));
        assert(kil.contains(r));
    }
    if d_sup.contains(r) {
        assert(dedup(sup).contains(r));
        assert(sup.contains(r));
    }
    if role_set_roles(RoleSet::Town).contains(r) {
        assert(role_set_list(RoleSet::Town) == lead + role_set_roles(RoleSet::TownCommon));
        lemma_concat_split(lead, role_set_roles(RoleSet::TownCommon), r);
        if role_set_roles(RoleSet::TownCommon).contains(r) {
            assert(role_set_list(RoleSet::TownCommon) == d_inv + d_pro + d_kil + d_sup);
            lemma_concat_split(d_inv + d_pro + d_kil, d_sup, r);
            if (d_inv + d_pro + d_kil).contains(r) {
                lemma_concat_split(d_inv + d_pro, d_kil, r);
                if (d_inv + d_pro).contains(r) {
                    lemma_concat_split(d_inv, d_pro, r);
                }
            }
        }
    }
}

/// The mafia roles and the mafia families, by index.
proof fn lemma_mafia_members(r: Role)
    ensures
        role_set_roles(RoleSet::Mafia).contains(r) ==> faction_index(r) == 1,
        role_set_roles(RoleSet::MafiaKilling).contains(r) ==> mafia_family_index(r) == 0,
        role_set_roles(RoleSet::MafiaSupport).contains(r) ==> mafia_family_index(r) == 1,
{
    let fi = |x: Role| faction_index(x);
    let mi = |x: Role| mafia_family_index(x);
    let mk = role_set_list(RoleSet::MafiaKilling);
    let ms = role_set_list(RoleSet::MafiaSupport);
    let lead = seq![Role::Goon, Role::MafiaSupportWildcard, Role::MafiaKillingWildcard];
    assert forall|i: int| 0 <= i < mk.len() implies fi(#[trigger] mk[i]) == 1 && mi(mk[i]) == 0 by {}
    assert forall|i: int| 0 <= i < ms.len() implies fi(#[trigger] ms[i]) == 1 && mi(ms[i]) == 1 by {}
    assert forall|i: int| 0 <= i < lead.len() implies fi(#[trigger] lead[i]) == 1 by {}
    lemma_family_of_members(mk, fi, 1);
    lemma_family_of_members(ms, fi, 1);
    lemma_family_of_members(lead, fi, 1);
    lemma_family_of_members(mk, mi, 0);
    lemma_family_of_members(ms, mi, 1);
    lemma_dedup(mk);
    lemma_dedup(ms);
    lemma_dedup(role_set_list(RoleSet::Mafia));
    let d_mk = role_set_roles(RoleSet::MafiaKilling);
    let d_ms = role_set_roles(RoleSet::MafiaSupport);
    if d_mk.contains(r) {
        assert(dedup(mk).contains(r));
        assert(mk.contains(r));
        assert(fi(r) == 1 && mi(r) == 0);
    }
    if d_ms.contains(r) {
        assert(dedup(ms).contains(r));
        assert(ms.contains(r));
        assert(fi(r) == 1 && mi(r) == 1);
    }
    if lead.contains(r) {
        assert(fi(r) == 1);
    }
    if role_set_roles(RoleSet::Mafia).contains(r) {
        assert(role_set_list(RoleSet::Mafia) == lead + d_mk + d_ms);
        lemma_concat_split(lead + d_mk, d_ms, r);
        if (lead + d_mk).contains(r) {
            lemma_concat_split(lead, d_mk, r);
        }
    }
}

/// The cult, fiends, neutral and minion roles, by index.
proof fn lemma_other_members(r: Role)
    ensures
        role_set_roles(RoleSet::Cult).contains(r) ==> faction_index(r) == 2,
        role_set_roles(RoleSet::Fiends).contains(r) ==> faction_index(r) == 3,
        role_set_roles(RoleSet::Neutral).contains(r) ==> faction_index(r) == 4,
        role_set_roles(RoleSet::Minions).contains(r) ==> faction_index(r) == 5,
{
    let fi = |x: Role| faction_index(x);
    let cult = role_set_list(RoleSet::Cult);
    let fiends = role_set_list(RoleSet::Fiends);
    let neutral = role_set_list(RoleSet::Neutral);
    let minions = role_set_list(RoleSet::Minions);
    assert forall|i: int| 0 <= i < cult.len() implies fi(#[trigger] cult[i]) == 2 by {}
    assert forall|i: int| 0 <= i < fiends.len() implies fi(#[trigger] fiends[i]) == 3 by {}
    assert forall|i: int| 0 <= i < neutral.len() implies fi(#[trigger] neutral[i]) == 4 by {}
    assert forall|i: int| 0 <= i < minions.len() implies fi(#[trigger] minions[i]) == 5 by {}
    lemma_family_of_members(cult, fi, 2);
    lemma_family_of_members(fiends, fi, 3);
    lemma_family_of_members(neutral, fi, 4);
    lemma_family_of_members(minions, fi, 5);
    lemma_dedup(cult);
    lemma_dedup(fiends);
    lemma_dedup(neutral);
    lemma_dedup(minions);
    if role_set_roles(RoleSet::Cult).contains(r) {
        assert(dedup(cult).contains(r));
        assert(cult.contains(r));
        assert(fi(r) == 2);
    }
    if role_set_roles(RoleSet::Fiends).contains(r) {
        assert(dedup(fiends).contains(r));
        assert(fiends.contains(r));
        assert(fi(r) == 3);
    }
    if role_set_roles(RoleSet::Neutral).contains(r) {
        assert(dedup(neutral).contains(r));
        assert(neutral.contains(r));
        assert(fi(r) == 4);
    }
    if role_set_roles(RoleSet::Minions).contains(r) {
        assert(dedup(minions).contains(r));
        assert(minions.contains(r));
        assert(fi(r) == 5);
    }
}

/// Each listed family holds every role of its family.
proof fn lemma_role_lists_complete()
    ensures
        forall|r: Role| town_family_index(r) == 0 ==> #[trigger] role_set_list(RoleSet::TownInvestigative).contains(r),
        forall|r: Role| town_family_index(r) == 1 ==> #[trigger] role_set_list(RoleSet::TownProtective).contains(r),
        forall|r: Role| town_family_index(r) == 2 ==> #[trigger] role_set_list(RoleSet::TownKilling).contains(r),
        forall|r: Role| town_family_index(r) == 3 ==> #[trigger] role_set_list(RoleSet::TownSupport).contains(r),
        forall|r: Role| mafia_family_index(r) == 0 ==> #[trigger] role_set_list(RoleSet::MafiaKilling).contains(r),
        forall|r: Role| mafia_family_index(r) == 1 ==> #[trigger] role_set_list(RoleSet::MafiaSupport).contains(r),
        forall|r: Role| faction_index(r) == 2 ==> #[trigger] role_set_list(RoleSet::Cult).contains(r),
        forall|r: Role| faction_index(r) == 3 ==> #[trigger] role_set_list(RoleSet::Fiends).contains(r),
        forall|r: Role| faction_index(r) == 4 ==> #[trigger] role_set_list(RoleSet::Neutral).contains(r),
        forall|r: Role| faction_index(r) == 5 ==> #[trigger] role_set_list(RoleSet::Minions).contains(r),
        forall|r: Role| faction_index(r) == 0 && town_family_index(r) == 4 ==> #[trigger] town_lead().contains(r),
        forall|r: Role| faction_index(r) == 1 && mafia_family_index(r) == 2 ==> #[trigger] mafia_lead().contains(r),
        forall|r: Role| #[trigger] town_family_index(r) < 4 ==> faction_index(r) == 0,
        forall|r: Role| #[trigger] mafia_family_index(r) < 2 ==> faction_index(r) == 1,
{
    let l = role_set_list(RoleSet::TownInvestigative);
    assert forall|r: Role| town_family_index(r) == 0 implies l.contains(r) by {
        match r {
            Role::Detective => assert(l[0] == r),
            Role::Philosopher => assert(l[1] == r),
            Role::Gossip => assert(l[2] == r),
            Role::Psychic => assert(l[3] == r),
            Role::Auditor => assert(l[4] == r),
            Role::Spy => assert(l[5] == r),
            Role::Lookout => assert(l[6] == r),
            Role::Tracker => assert(l[7] == r),
            Role::Snoop => assert(l[8] == r),
            Role::TallyClerk => assert(l[9] == r),
            _ => {},
        }
    }
    let l = role_set_list(RoleSet::TownProtective);
    assert forall|r: Role| town_family_index(r) == 1 implies l.contains(r) by {
        match r {
            Role::Bodyguard => assert(l[0] == r),
            Role::Cop => assert(l[1] == r),
            Role::Doctor => assert(l[2] == r),
            Role::Bouncer => assert(l[3] == r),
            Role::Engineer => assert(l[4] == r),
            Role::Armorsmith => assert(l[5] == r),
            Role::Steward => assert(l[6] == r),
            _ => {},
        }
    }
    let l = role_set_list(RoleSet::TownKilling);
    assert forall|r: Role| town_family_index(r) == 2 implies l.contains(r) by {
        match r {
            Role::Vigilante => assert(l[0] == r),
            Role::Veteran => assert(l[1] == r),
            Role::Deputy => assert(l[2] == r),
            Role::Marksman => assert(l[3] == r),
            Role::Rabblerouser => assert(l[4] == r),
            _ => {},
        }
    }
    let l = role_set_list(RoleSet::TownSupport);
    assert forall|r: Role| town_family_index(r) == 3 implies l.contains(r) by {
        match r {
            Role::Medium => assert(l[0] == r),
            Role::Coxswain => assert(l[1] == r),
            Role::Retributionist => assert(l[2] == r),
            Role::Transporter => assert(l[3] == r),
            Role::Porter => assert(l[4] == r),
            Role::Escort => assert(l[5] == r),
            Role::Mayor => assert(l[6] == r),
            Role::Reporter => assert(l[7] == r),
            Role::Polymath => assert(l[8] == r),
            _ => {},
        }
    }
    let l = role_set_list(RoleSet::MafiaKilling);
    assert forall|r: Role| mafia_family_index(r) == 0 implies l.contains(r) by {
        match r {
            Role::Godfather => assert(l[0] == r),
            Role::Counterfeiter => assert(l[1] == r),
            Role::Impostor => assert(l[2] == r),
            Role::Recruiter => assert(l[3] == r),
            Role::Mafioso => assert(l[4] == r),
            _ => {},
        }
    }
    let l = role_set_list(RoleSet::MafiaSupport);
    assert forall|r: Role| mafia_family_index(r) == 1 implies l.contains(r) by {
        match r {
            Role::Blackmailer => assert(l[0] == r),
            Role::Informant => assert(l[1] == r),
            Role::Hypnotist => assert(l[2] == r),
            Role::Consort => assert(l[3] == r),
            Role::Forger => assert(l[4] == r),
            Role::Framer => assert(l[5] == r),
            Role::Mortician => assert(l[6] == r),
            Role::Disguiser => assert(l[7] == r),
            Role::MafiaWitch => assert(l[8] == r),
            Role::Necromancer => assert(l[9] == r),
            Role::Reeducator => assert(l[10] == r),
            Role::Ambusher => assert(l[11] == r),
            _ => {},
        }
    }
    let l = role_set_list(RoleSet::Cult);
    assert forall|r: Role| faction_index(r) == 2 implies l.contains(r) by {
        match r {
            Role::Apostle => assert(l[0] == r),
            Role::Disciple => assert(l[1] == r),
            Role::Zealot => assert(l[2] == r),
            _ => {},
        }
    }
    let l = role_set_list(RoleSet::Fiends);
    assert forall|r: Role| faction_index(r) == 3 implies l.contains(r) by {
        match r {
            Role::Arsonist => assert(l[0] == r),
            Role::Werewolf => assert(l[1] == r),
            Role::Ojo => assert(l[2] == r),
            Role::Puppeteer => assert(l[3] == r),
            Role::Pyrolisk => assert(l[4] == r),
            Role::Kira => assert(l[5] == r),
            Role::SerialKiller => assert(l[6] == r),
            Role::FiendsWildcard => assert(l[7] == r),
            Role::Spiral => assert(l[8] == r),
            Role::Warden => assert(l[9] == r),
            Role::Yer => assert(l[10] == r),
            _ => {},
        }
    }
    let l = role_set_list(RoleSet::Neutral);
    assert forall|r: Role| faction_index(r) == 4 implies l.contains(r) by {
        match r {
            Role::Jester => assert(l[0] == r),
            Role::Revolutionary => assert(l[1] == r),
            Role::Politician => assert(l[2] == r),
            Role::Doomsayer => assert(l[3] == r),
            Role::Martyr => assert(l[4] == r),
            Role::Chronokaiser => assert(l[5] == r),
            Role::SantaClaus => assert(l[6] == r),
            Role::Krampus => assert(l[7] == r),
            _ => {},
        }
    }
    let l = role_set_list(RoleSet::Minions);
    assert forall|r: Role| faction_index(r) == 5 implies l.contains(r) by {
        match r {
            Role::Witch => assert(l[0] == r),
            Role::Scarecrow => assert(l[1] == r),
            Role::Warper => assert(l[2] == r),
            Role::Kidnapper => assert(l[3] == r),
            _ => {},
        }
    }
    let l = town_lead();
    assert forall|r: Role| faction_index(r) == 0 && town_family_index(r) == 4 implies l.contains(r) by {
        match r {
            Role::Jailor => assert(l[0] == r),
            Role::Villager => assert(l[1] == r),
            Role::Drunk => assert(l[2] == r),
            _ => {},
        }
    }
    let l = mafia_lead();
    assert forall|r: Role| faction_index(r) == 1 && mafia_family_index(r) == 2 implies l.contains(r) by {
        match r {
            Role::Goon => assert(l[0] == r),
            Role::MafiaSupportWildcard => assert(l[1] == r),
            Role::MafiaKillingWildcard => assert(l[2] == r),
            _ => {},
        }
    }
}

/// The mafia roles listed before the mafia's killing and support roles.
pub open spec fn mafia_lead() -> Seq<Role> {
    seq![Role::Goon, Role::MafiaSupportWildcard, Role::MafiaKillingWildcard]
}

/// Every role set holds exactly the roles of its faction or family: the
/// factions' sets the roles `faction_index` places in them, the town families
/// those `town_family_index` places in them, and the mafia's killing and
/// support roles those `mafia_family_index` places in them.
pub proof fn lemma_role_sets_exact(r: Role)
    ensures
        forall|a: int| 0 <= a < 6 ==> (role_set_roles(#[trigger] faction_sets()[a]).contains(r) <==> faction_index(r) == a),
        forall|a: int| 0 <= a < 4 ==> (role_set_roles(#[trigger] town_families()[a]).contains(r) <==> town_family_index(r) == a),
        role_set_roles(RoleSet::MafiaKilling).contains(r) <==> mafia_family_index(r) == 0,
        role_set_roles(RoleSet::MafiaSupport).contains(r) <==> mafia_family_index(r) == 1,
{
    lemma_role_lists_complete();
    lemma_town_members(r);
    lemma_mafia_members(r);
    lemma_other_members(r);
    lemma_dedup(role_set_list(RoleSet::TownInvestigative));
    lemma_dedup(role_set_list(RoleSet::TownProtective));
    lemma_dedup(role_set_list(RoleSet::TownKilling));
    lemma_dedup(role_set_list(RoleSet::TownSupport));
    lemma_dedup(role_set_list(RoleSet::TownCommon));
    lemma_dedup(role_set_list(RoleSet::Town));
    lemma_dedup(role_set_list(RoleSet::MafiaKilling));
    lemma_dedup(role_set_list(RoleSet::MafiaSupport));
    lemma_dedup(role_set_list(RoleSet::Mafia));
    lemma_dedup(role_set_list(RoleSet::Cult));
    lemma_dedup(role_set_list(RoleSet::Fiends));
    lemma_dedup(role_set_list(RoleSet::Neutral));
    lemma_dedup(role_set_list(RoleSet::Minions));
    let d_inv = role_set_roles(RoleSet::TownInvestigative);
    let d_pro = role_set_roles(RoleSet::TownProtective);
    let d_kil = role_set_roles(RoleSet::TownKilling);
    let d_sup = role_set_roles(RoleSet::TownSupport);
    let d_mk = role_set_roles(RoleSet::MafiaKilling);
    let d_ms = role_set_roles(RoleSet::MafiaSupport);
    let common = role_set_roles(RoleSet::TownCommon);
    assert(role_set_list(RoleSet::TownCommon) == d_inv + d_pro + d_kil + d_sup);
    assert(role_set_list(RoleSet::Town) == town_lead() + common);
    assert(role_set_list(RoleSet::Mafia) == mafia_lead() + d_mk + d_ms);
    lemma_concat_contains(d_inv, d_pro, r);
    lemma_concat_contains(d_inv + d_pro, d_kil, r);
    lemma_concat_contains(d_inv + d_pro + d_kil, d_sup, r);
    lemma_concat_contains(town_lead(), common, r);
    lemma_concat_contains(mafia_lead(), d_mk, r);
    lemma_concat_contains(mafia_lead() + d_mk, d_ms, r);
    if faction_index(r) == 0 {
        if town_family_index(r) == 0 {
            assert(role_set_list(RoleSet::TownInvestigative).contains(r));
        } else if town_family_index(r) == 1 {
            assert(role_set_list(RoleSet::TownProtective).contains(r));
        } else if town_family_index(r) == 2 {
            assert(role_set_list(RoleSet::TownKilling).contains(r));
        } else if town_family_index(r) == 3 {
            assert(role_set_list(RoleSet::TownSupport).contains(r));
        } else {
            assert(town_lead().contains(r));
        }
        assert(role_set_roles(RoleSet::Town).contains(r));
    }
    if faction_index(r) == 1 {
        if mafia_family_index(r) == 0 {
            assert(role_set_list(RoleSet::MafiaKilling).contains(r));
        } else if mafia_family_index(r) == 1 {
            assert(role_set_list(RoleSet::MafiaSupport).contains(r));
        } else {
            assert(mafia_lead().contains(r));
        }
        assert(role_set_roles(RoleSet::Mafia).contains(r));
    }
    if faction_index(r) == 2 {
        assert(role_set_list(RoleSet::Cult).contains(r));
    }
    if faction_index(r) == 3 {
        assert(role_set_list(RoleSet::Fiends).contains(r));
    }
    if faction_index(r) == 4 {
        assert(role_set_list(RoleSet::Neutral).contains(r));
    }
    if faction_index(r) == 5 {
        assert(role_set_list(RoleSet::Minions).contains(r));
    }
    if town_family_index(r) == 0 {
        assert(role_set_list(RoleSet::TownInvestigative).contains(r));
    }
    if town_family_index(r) == 1 {
        assert(role_set_list(RoleSet::TownProtective).contains(r));
    }
    if town_family_index(r) == 2 {
        assert(role_set_list(RoleSet::TownKilling).contains(r));
    }
    if town_family_index(r) == 3 {
        assert(role_set_list(RoleSet::TownSupport).contains(r));
    }
    if mafia_family_index(r) == 0 {
        assert(role_set_list(RoleSet::MafiaKilling).contains(r));
    }
    if mafia_family_index(r) == 1 {
        assert(role_set_list(RoleSet::MafiaSupport).contains(r));
    }
    assert(faction_sets()[0] == RoleSet::Town);
    assert(faction_sets()[1] == RoleSet::Mafia);
    assert(faction_sets()[2] == RoleSet::Cult);
    assert(faction_sets()[3] == RoleSet::Fiends);
    assert(faction_sets()[4] == RoleSet::Neutral);
    assert(faction_sets()[5] == RoleSet::Minions);
    assert(town_families()[0] == RoleSet::TownInvestigative);
    assert(town_families()[1] == RoleSet::TownProtective);
    assert(town_families()[2] == RoleSet::TownKilling);
    assert(town_families()[3] == RoleSet::TownSupport);
}

/// An element of a concatenation lies in one of its parts.
proof fn lemma_concat_split<T>(a: Seq<T>, b: Seq<T>, x: T)
    requires
        (a + b).contains(x),
    ensures
        a.contains(x) || b.contains(x),
{
    let i = choose|i: int| 0 <= i < (a + b).len() && (a + b)[i] == x;
    if i >= a.len() {
        assert(b[i - a.len()] == x);
    } else {
        assert(a[i] == x);
    }
}

/// The town roles listed before the common town roles.
pub open spec fn town_lead() -> Seq<Role> {
    seq![Role::Jailor, Role::Villager, Role::Drunk]
}

/// The sets of the factions, in the order `faction_index` numbers them.
pub open spec fn faction_sets() -> Seq<RoleSet> {
    seq![RoleSet::Town, RoleSet::Mafia, RoleSet::Cult, RoleSet::Fiends, RoleSet::Neutral, RoleSet::Minions]
}

/// The town families, in the order `town_family_index` numbers them.
pub open spec fn town_families() -> Seq<RoleSet> {
    seq![RoleSet::TownInvestigative, RoleSet::TownProtective, RoleSet::TownKilling, RoleSet::TownSupport]
}

/// A role set's roles are its listed roles, each once.
pub proof fn lemma_role_set_members(s: RoleSet, r: Role)
    ensures
        role_set_roles(s).no_duplicates(),
        role_set_roles(s).contains(r) <==> role_set_list(s).contains(r),
{
    lemma_dedup(role_set_list(s));
}

/// How many times `role` occurs in `roles`.
pub open spec fn count_role(roles: Seq<Role>, role: Role) -> nat
    decreases roles.len(),
{
    if roles.len() == 0 {
        0
    } else {
        count_role(roles.drop_last(), role) + if roles.last() == role { 1nat } else { 0nat }
    }
}

/// A role can be drawn when the host enabled it and, if the role is limited,
/// fewer than its limit are already taken.
pub open spec fn spec_role_can_generate(role: Role, enabled_roles: Seq<Role>, taken_roles: Seq<Role>) -> bool {
    &&& enabled_roles.contains(role)
    &&& match spec_maximum_count(role) {
        Some(max) => count_role(taken_roles, role) < max,
        None => true,
    }
}

/// A role that occurs is counted at least once.
proof fn lemma_count_role_contains(roles: Seq<Role>, role: Role)
    requires
        roles.contains(role),
    ensures
        count_role(roles, role) >= 1,
    decreases roles.len(),
{
    if roles.last() != role {
        let i = choose|i: int| 0 <= i < roles.len() && roles[i] == role;
        assert(roles.drop_last()[i] == role);
        lemma_count_role_contains(roles.drop_last(), role);
    }
}

/// A role only one player may hold cannot be drawn once it has been; any
/// other enabled role can always be drawn.
pub proof fn lemma_role_limits(role: Role, enabled_roles: Seq<Role>, taken_roles: Seq<Role>)
    ensures
        limited_to_one(role) && taken_roles.contains(role) ==> !spec_role_can_generate(role, enabled_roles, taken_roles),
        !limited_to_one(role) && enabled_roles.contains(role) ==> spec_role_can_generate(role, enabled_roles, taken_roles),
        !enabled_roles.contains(role) ==> !spec_role_can_generate(role, enabled_roles, taken_roles),
{
    lemma_maximum_counts(role);
    if limited_to_one(role) && taken_roles.contains(role) {
        lemma_count_role_contains(taken_roles, role);
    }
}

/// Whether `role` may still be drawn, given the enabled roles and the roles already drawn.
pub fn role_can_generate(role: Role, enabled_roles: &VecSet<Role>, taken_roles: &[Role]) -> (r: bool)
    ensures
        r == spec_role_can_generate(role, enabled_roles@, taken_roles@),
{
    if !enabled_roles.contains(&role) {
        return false;
    }
    match role.maximum_count() {
        Some(max) => {
            let mut count: usize = 0;
            let mut i: usize = 0;
            while i < taken_roles.len()
                invariant
                    i <= taken_roles@.len(),
                    count == count_role(taken_roles@.take(i as int), role),
                    count <= i,
                decreases taken_roles@.len() - i,
            {
                assert(taken_roles@.take(i + 1).drop_last() =~= taken_roles@.take(i as int));
                if taken_roles[i] == role {
                    count = count + 1;
                }
                i = i + 1;
            }
            assert(taken_roles@.take(taken_roles@.len() as int) =~= taken_roles@);
            count < max as usize
        },
        None => true,
    }
}

/// The roles an option of an outline offers: one role, or a whole set.
#[derive(Clone, Copy, PartialEq, Eq, Structural, Debug, Hash)]
pub enum RoleOutlineOptionRoles {
    RoleSet { role_set: RoleSet },
    Role { role: Role },
}

/// The roles an option offers, each once.
pub open spec fn option_roles(roles: RoleOutlineOptionRoles) -> Seq<Role> {
    match roles {
        RoleOutlineOptionRoles::RoleSet { role_set } => role_set_roles(role_set),
        RoleOutlineOptionRoles::Role { role } => seq![role],
    }
}

/// Every role `a` offers is offered by `b` too.
pub open spec fn spec_is_subset(a: RoleOutlineOptionRoles, b: RoleOutlineOptionRoles) -> bool {
    forall|i: int| 0 <= i < option_roles(a).len() ==> option_roles(b).contains(#[trigger] option_roles(a)[i])
}

impl RoleOutlineOptionRoles {
    /// The option that offers any role.
    pub fn default() -> (r: RoleOutlineOptionRoles)
        ensures
            r == (RoleOutlineOptionRoles::RoleSet { role_set: RoleSet::Any }),
    {
        RoleOutlineOptionRoles::RoleSet { role_set: RoleSet::Any }
    }

    pub fn get_roles(&self) -> (r: VecSet<Role>)
        ensures
            r@ == option_roles(*self),
            r@.no_duplicates(),
    {
        match self {
            RoleOutlineOptionRoles::RoleSet { role_set } => role_set.get_roles(),
            RoleOutlineOptionRoles::Role { role } => VecSet::with_first(*role),
        }
    }

    /// Whether every role this option offers is offered by `other`.
    pub fn is_subset(&self, other: &RoleOutlineOptionRoles) -> (r: bool)
        ensures
            r == spec_is_subset(*self, *other),
    {
        let mine = self.get_roles();
        let theirs = other.get_roles();
        let items = mine.as_vec();
        let mut i: usize = 0;
        while i < items.len()
            invariant
                i <= items@.len(),
                items@ == option_roles(*self),
                theirs@ == option_roles(*other),
                forall|j: int| 0 <= j < i ==> option_roles(*other).contains(#[trigger] option_roles(*self)[j]),
            decreases items@.len() - i,
        {
            if !theirs.contains(&items[i]) {
                return false;
            }
            i = i + 1;
        }
        true
    }
}

/// The win condition an option gives: the role's own, or a list of game
/// conclusions any of which is a win.
#[derive(Debug)]
pub enum RoleOutlineOptionWinCondition {
    RoleDefault,
    GameConclusionReached { win_if_any: VecSet<GameConclusion> },
}

impl View for RoleOutlineOptionWinCondition {
    type V = Option<Seq<GameConclusion>>;

    open spec fn view(&self) -> Option<Seq<GameConclusion>> {
        match self {
            RoleOutlineOptionWinCondition::RoleDefault => None,
            RoleOutlineOptionWinCondition::GameConclusionReached { win_if_any } => Some(win_if_any@),
        }
    }
}

impl Default for RoleOutlineOptionWinCondition {
    fn default() -> (r: Self)
        ensures
            r@ is None,
    {
        RoleOutlineOptionWinCondition::RoleDefault
    }
}

impl RoleOutlineOptionWinCondition {
    pub fn is_default(&self) -> (r: bool)
        ensures
            r == (self@ is None),
    {
        match self {
            RoleOutlineOptionWinCondition::RoleDefault => true,
            _ => false,
        }
    }

    pub fn duplicate(&self) -> (r: Self)
        ensures
            r@ == self@,
    {
        match self {
            RoleOutlineOptionWinCondition::RoleDefault => RoleOutlineOptionWinCondition::RoleDefault,
            RoleOutlineOptionWinCondition::GameConclusionReached { win_if_any } =>
                RoleOutlineOptionWinCondition::GameConclusionReached { win_if_any: win_if_any.duplicate() },
        }
    }

    pub fn same_as(&self, other: &Self) -> (r: bool)
        ensures
            r == (self@ == other@),
    {
        match (self, other) {
            (RoleOutlineOptionWinCondition::RoleDefault, RoleOutlineOptionWinCondition::RoleDefault) => true,
            (
                RoleOutlineOptionWinCondition::GameConclusionReached { win_if_any: a },
                RoleOutlineOptionWinCondition::GameConclusionReached { win_if_any: b },
            ) => a.same_as(b),
            _ => false,
        }
    }
}

/// The insider groups an option gives: the role's own, or a chosen list.
#[derive(Debug)]
pub enum RoleOutlineOptionInsiderGroups {
    RoleDefault,
    Custom { insider_groups: VecSet<InsiderGroupID> },
}

impl View for RoleOutlineOptionInsiderGroups {
    type V = Option<Seq<InsiderGroupID>>;

    open spec fn view(&self) -> Option<Seq<InsiderGroupID>> {
        match self {
            RoleOutlineOptionInsiderGroups::RoleDefault => None,
            RoleOutlineOptionInsiderGroups::Custom { insider_groups } => Some(insider_groups@),
        }
    }
}

impl Default for RoleOutlineOptionInsiderGroups {
    fn default() -> (r: Self)
        ensures
            r@ is None,
    {
        RoleOutlineOptionInsiderGroups::RoleDefault
    }
}

impl RoleOutlineOptionInsiderGroups {
    pub fn is_default(&self) -> (r: bool)
        ensures
            r == (self@ is None),
    {
        match self {
            RoleOutlineOptionInsiderGroups::RoleDefault => true,
            _ => false,
        }
    }

    pub fn duplicate(&self) -> (r: Self)
        ensures
            r@ == self@,
    {
        match self {
            RoleOutlineOptionInsiderGroups::RoleDefault => RoleOutlineOptionInsiderGroups::RoleDefault,
            RoleOutlineOptionInsiderGroups::Custom { insider_groups } =>
                RoleOutlineOptionInsiderGroups::Custom { insider_groups: insider_groups.duplicate() },
        }
    }

    pub fn same_as(&self, other: &Self) -> (r: bool)
        ensures
            r == (self@ == other@),
    {
        match (self, other) {
            (RoleOutlineOptionInsiderGroups::RoleDefault, RoleOutlineOptionInsiderGroups::RoleDefault) => true,
            (
                RoleOutlineOptionInsiderGroups::Custom { insider_groups: a },
                RoleOutlineOptionInsiderGroups::Custom { insider_groups: b },
            ) => a.same_as(b),
            _ => false,
        }
    }
}

/// The plain value of an option: its roles, win condition and insider groups.
pub type OptionView = (RoleOutlineOptionRoles, Option<Seq<GameConclusion>>, Option<Seq<InsiderGroupID>>);

/// The plain value of an assignment: its role, insider groups and win condition.
pub type AssignmentView = (Role, Option<Seq<InsiderGroupID>>, Option<Seq<GameConclusion>>);

/// One option of an outline: the roles it offers, with the win condition and
/// insider groups a player drawn from it gets.
#[derive(Debug)]
pub struct RoleOutlineOption {
    pub roles: RoleOutlineOptionRoles,
    pub win_condition: RoleOutlineOptionWinCondition,
    pub insider_groups: RoleOutlineOptionInsiderGroups,
}

impl View for RoleOutlineOption {
    type V = OptionView;

    open spec fn view(&self) -> OptionView {
        (self.roles, self.win_condition@, self.insider_groups@)
    }
}

impl Default for RoleOutlineOption {
    fn default() -> (r: Self)
        ensures
            r@ == (RoleOutlineOptionRoles::RoleSet { role_set: RoleSet::Any }, None::<Seq<GameConclusion>>, None::<Seq<InsiderGroupID>>),
    {
        RoleOutlineOption {
            roles: RoleOutlineOptionRoles::default(),
            win_condition: RoleOutlineOptionWinCondition::default(),
            insider_groups: RoleOutlineOptionInsiderGroups::default(),
        }
    }
}

/// The roles a client's description of an option gives: a role set where its
/// field is present (any role when that field is not understood), else the
/// single role where that field is present and understood, else any role.
pub open spec fn described_roles(role_set: Option<Option<RoleSet>>, role: Option<Option<Role>>) -> RoleOutlineOptionRoles {
    match role_set {
        Some(Some(s)) => RoleOutlineOptionRoles::RoleSet { role_set: s },
        Some(None) => RoleOutlineOptionRoles::RoleSet { role_set: RoleSet::Any },
        None => match role {
            Some(Some(x)) => RoleOutlineOptionRoles::Role { role: x },
            _ => RoleOutlineOptionRoles::RoleSet { role_set: RoleSet::Any },
        },
    }
}

impl RoleOutlineOption {
    /// The option a client describes, field by field. Each argument is `None`
    /// where its field is absent, `Some(None)` where the field is present but
    /// does not read as a value of its type, and `Some(Some(v))` where it
    /// reads as `v`. A field that is absent or not understood leaves the
    /// default in place; a description that is not an object at all gives
    /// the default option.
    pub fn from_described_fields(
        win_if_any: Option<Option<VecSet<GameConclusion>>>,
        insider_groups: Option<Option<VecSet<InsiderGroupID>>>,
        role_set: Option<Option<RoleSet>>,
        role: Option<Option<Role>>,
    ) -> (r: RoleOutlineOption)
        ensures
            r.roles == described_roles(role_set, role),
            r.win_condition@ == (match win_if_any {
                Some(Some(w)) => Some(w@),
                _ => None,
            }),
            r.insider_groups@ == (match insider_groups {
                Some(Some(g)) => Some(g@),
                _ => None,
            }),
    {
        let mut option = RoleOutlineOption::default();
        if let Some(Some(win_if_any)) = win_if_any {
            option.win_condition = RoleOutlineOptionWinCondition::GameConclusionReached { win_if_any };
        }
        if let Some(Some(insider_groups)) = insider_groups {
            option.insider_groups = RoleOutlineOptionInsiderGroups::Custom { insider_groups };
        }
        match role_set {
            Some(Some(role_set)) => {
                option.roles = RoleOutlineOptionRoles::RoleSet { role_set };
            },
            Some(None) => {},
            None => {
                if let Some(Some(role)) = role {
                    option.roles = RoleOutlineOptionRoles::Role { role };
                }
            },
        }
        option
    }

    pub fn duplicate(&self) -> (r: Self)
        ensures
            r@ == self@,
    {
        RoleOutlineOption {
            roles: self.roles,
            win_condition: self.win_condition.duplicate(),
            insider_groups: self.insider_groups.duplicate(),
        }
    }

    pub fn same_as(&self, other: &Self) -> (r: bool)
        ensures
            r == (self@ == other@),
    {
        self.roles == other.roles && self.win_condition.same_as(&other.win_condition)
            && self.insider_groups.same_as(&other.insider_groups)
    }
}

/// A role drawn for a player, with the win condition and insider groups its
/// option gave.
#[derive(Debug)]
pub struct RoleAssignment {
    pub role: Role,
    pub insider_groups: RoleOutlineOptionInsiderGroups,
    pub win_condition: RoleOutlineOptionWinCondition,
}

impl View for RoleAssignment {
    type V = AssignmentView;

    open spec fn view(&self) -> AssignmentView {
        (self.role, self.insider_groups@, self.win_condition@)
    }
}

impl RoleAssignment {
    pub fn duplicate(&self) -> (r: Self)
        ensures
            r@ == self@,
    {
        RoleAssignment {
            role: self.role,
            insider_groups: self.insider_groups.duplicate(),
            win_condition: self.win_condition.duplicate(),
        }
    }
}

pub open spec fn options_view(s: Seq<RoleOutlineOption>) -> Seq<OptionView> {
    s.map_values(|o: RoleOutlineOption| o@)
}

pub open spec fn assignments_view(s: Seq<RoleAssignment>) -> Seq<AssignmentView> {
    s.map_values(|a: RoleAssignment| a@)
}

/// The assignments one option offers: one per role, in the order of its roles.
pub open spec fn option_assignments(o: OptionView) -> Seq<AssignmentView> {
    option_roles(o.0).map_values(|r: Role| (r, o.2, o.1))
}

/// The assignments of all options, option after option.
pub open spec fn outline_assignments(options: Seq<OptionView>) -> Seq<AssignmentView>
    decreases options.len(),
{
    if options.len() == 0 {
        Seq::empty()
    } else {
        outline_assignments(options.drop_last()) + option_assignments(options.last())
    }
}

/// The roles of all options, option after option.
pub open spec fn outline_roles(options: Seq<OptionView>) -> Seq<Role>
    decreases options.len(),
{
    if options.len() == 0 {
        Seq::empty()
    } else {
        outline_roles(options.drop_last()) + option_roles(options.last().0)
    }
}

/// The assignments of `s` whose role can still be drawn.
pub open spec fn generatable(s: Seq<AssignmentView>, enabled_roles: Seq<Role>, taken_roles: Seq<Role>) -> Seq<AssignmentView>
    decreases s.len(),
{
    if s.len() == 0 {
        Seq::empty()
    } else {
        let g = generatable(s.drop_last(), enabled_roles, taken_roles);
        if spec_role_can_generate(s.last().0, enabled_roles, taken_roles) {
            g.push(s.last())
        } else {
            g
        }
    }
}

/// The roles of a run of assignments.
pub open spec fn assignment_roles(s: Seq<AssignmentView>) -> Seq<Role> {
    s.map_values(|a: AssignmentView| a.0)
}

#[verifier::external_type_specification]
#[verifier::external_body]
#[verifier::reject_recursive_types(T)]
pub struct ExVec1<T>(Vec1<T>);

/// The options a non-empty vector of outline options holds, in order.
pub uninterp spec fn vec1_options(v: Vec1<RoleOutlineOption>) -> Seq<RoleOutlineOption>;

/// `Vec1::new`: a vector holding just `first`.
#[verifier::external_body]
pub(crate) fn options_new(first: RoleOutlineOption) -> (r: Vec1<RoleOutlineOption>)
    ensures
        vec1_options(r) == seq![first],
{
    Vec1::new(first)
}

/// `Vec1::try_from_vec`: the same items, unless `v` is empty.
#[verifier::external_body]
fn options_try_from_vec(v: Vec<RoleOutlineOption>) -> (r: Option<Vec1<RoleOutlineOption>>)
    ensures
        r is Some <==> v@.len() > 0,
        r matches Some(x) ==> vec1_options(x) == v@,
{
    Vec1::try_from_vec(v).ok()
}

/// `Vec1::as_vec`: the underlying vector, which is never empty.
#[verifier::external_body]
pub(crate) fn options_as_vec(v: &Vec1<RoleOutlineOption>) -> (r: &Vec<RoleOutlineOption>)
    ensures
        r@ == vec1_options(*v),
        r@.len() > 0,
{
    v.as_vec()
}

/// One entry of a role list: the options a player's role is drawn from.
#[derive(Debug)]
pub struct RoleOutline {
    pub options: Vec1<RoleOutlineOption>,
}

impl View for RoleOutline {
    type V = Seq<OptionView>;

    open spec fn view(&self) -> Seq<OptionView> {
        options_view(vec1_options(self.options))
    }
}

impl Default for RoleOutline {
    /// An outline of one option: any role, with the role's own win condition and groups.
    fn default() -> (r: Self)
        ensures
            r@ == seq![(RoleOutlineOptionRoles::RoleSet { role_set: RoleSet::Any }, None::<Seq<GameConclusion>>, None::<Seq<InsiderGroupID>>)],
    {
        let r = RoleOutline { options: options_new(RoleOutlineOption::default()) };
        assert(r@ =~= seq![(RoleOutlineOptionRoles::RoleSet { role_set: RoleSet::Any }, None::<Seq<GameConclusion>>, None::<Seq<InsiderGroupID>>)]);
        r
    }
}


/// A sequence holds `f(x)` for each `x` it held before mapping.
pub proof fn lemma_map_contains<A, B>(s: Seq<A>, f: spec_fn(A) -> B, x: A)
    requires
        s.contains(x),
    ensures
        s.map_values(f).contains(f(x)),
{
    let i = choose|i: int| 0 <= i < s.len() && s[i] == x;
    assert(s.map_values(f)[i] == f(x));
}

/// Appends the assignments `option` offers to `out`.
fn push_option_assignments(out: &mut Vec<RoleAssignment>, option: &RoleOutlineOption)
    ensures
        assignments_view(final(out)@) == assignments_view(old(out)@) + option_assignments(option@),
{
    let roles = option.roles.get_roles();
    let items = roles.as_vec();
    let ghost start = assignments_view(out@);
    let mut i: usize = 0;
    while i < items.len()
        invariant
            i <= items@.len(),
            items@ == option_roles(option.roles),
            assignments_view(out@) =~= start + option_assignments(option@).take(i as int),
        decreases items@.len() - i,
    {
        let a = RoleAssignment {
            role: items[i],
            insider_groups: option.insider_groups.duplicate(),
            win_condition: option.win_condition.duplicate(),
        };
        let ghost before = out@;
        out.push(a);
        proof {
            assert(assignments_view(out@) =~= assignments_view(before).push(a@));
            assert(option_assignments(option@).take(i + 1) =~= option_assignments(option@).take(i as int).push(a@));
        }
        i = i + 1;
    }
    assert(option_assignments(option@).take(items@.len() as int) =~= option_assignments(option@));
}

/// The path from an outline's options to its plain value, one step at a time.
proof fn lemma_options_view_take(s: Seq<RoleOutlineOption>, i: int)
    requires
        0 <= i < s.len(),
    ensures
        options_view(s.take(i + 1)).drop_last() == options_view(s.take(i)),
        options_view(s.take(i + 1)).last() == s[i]@,
        options_view(s.take(s.len() as int)) == options_view(s),
{
    assert(options_view(s.take(i + 1)).drop_last() =~= options_view(s.take(i)));
    assert(s.take(s.len() as int) =~= s);
}

impl RoleOutline {
    /// An outline of exactly one role, with the role's own win condition and groups.
    pub fn new_exact(role: Role) -> (r: RoleOutline)
        ensures
            r@ == seq![(RoleOutlineOptionRoles::Role { role }, None::<Seq<GameConclusion>>, None::<Seq<InsiderGroupID>>)],
    {
        let r = RoleOutline {
            options: options_new(RoleOutlineOption {
                win_condition: RoleOutlineOptionWinCondition::default(),
                insider_groups: RoleOutlineOptionInsiderGroups::default(),
                roles: RoleOutlineOptionRoles::Role { role },
            }),
        };
        assert(r@ =~= seq![(RoleOutlineOptionRoles::Role { role }, None::<Seq<GameConclusion>>, None::<Seq<InsiderGroupID>>)]);
        r
    }

    /// Every assignment the outline offers: for each option in order, one per role.
    pub fn get_role_assignments(&self) -> (r: Vec<RoleAssignment>)
        ensures
            assignments_view(r@) == outline_assignments(self@),
    {
        let options = options_as_vec(&self.options);
        let mut out: Vec<RoleAssignment> = Vec::new();
        let mut i: usize = 0;
        while i < options.len()
            invariant
                i <= options@.len(),
                options@ == vec1_options(self.options),
                assignments_view(out@) == outline_assignments(options_view(options@.take(i as int))),
            decreases options@.len() - i,
        {
            proof {
                lemma_options_view_take(options@, i as int);
            }
            push_option_assignments(&mut out, &options[i]);
            i = i + 1;
        }
        proof {
            lemma_options_view_take(options@, 0);
        }
        out
    }

    /// Every role the outline offers, option after option.
    pub fn get_all_roles(&self) -> (r: Vec<Role>)
        ensures
            r@ == outline_roles(self@),
    {
        let options = options_as_vec(&self.options);
        let mut out: Vec<Role> = Vec::new();
        let mut i: usize = 0;
        while i < options.len()
            invariant
                i <= options@.len(),
                options@ == vec1_options(self.options),
                out@ == outline_roles(options_view(options@.take(i as int))),
            decreases options@.len() - i,
        {
            proof {
                lemma_options_view_take(options@, i as int);
            }
            extend_roles(&mut out, &options[i].roles.get_roles());
            i = i + 1;
        }
        proof {
            lemma_options_view_take(options@, 0);
        }
        out
    }

    /// Draws one of the outline's assignments whose role can still be drawn,
    /// at random; `None` when there is none.
    pub fn get_random_role_assignments(&self, enabled_roles: &VecSet<Role>, taken_roles: &[Role]) -> (r: Option<RoleAssignment>)
        ensures
            r is None <==> generatable(outline_assignments(self@), enabled_roles@, taken_roles@).len() == 0,
            r matches Some(a) ==> generatable(outline_assignments(self@), enabled_roles@, taken_roles@).contains(a@),
    {
        let all = self.get_role_assignments();
        let ghost all_view = assignments_view(all@);
        let mut options: Vec<RoleAssignment> = Vec::new();
        let mut i: usize = 0;
        while i < all.len()
            invariant
                i <= all@.len(),
                all_view == assignments_view(all@),
                assignments_view(options@) == generatable(all_view.take(i as int), enabled_roles@, taken_roles@),
            decreases all@.len() - i,
        {
            proof {
                assert(all_view.take(i + 1).drop_last() =~= all_view.take(i as int));
                assert(all_view.take(i + 1).last() == all@[i as int]@);
            }
            if role_can_generate(all[i].role, enabled_roles, taken_roles) {
                let a = all[i].duplicate();
                let ghost before = options@;
                options.push(a);
                proof {
                    assert(assignments_view(options@) =~= assignments_view(before).push(a@));
                }
            }
            i = i + 1;
        }
        proof {
            assert(all_view.take(all@.len() as int) =~= all_view);
        }
        match choose_random(options.as_slice()) {
            Some(a) => {
                proof {
                    lemma_map_contains(options@, |a: RoleAssignment| a@, *a);
                }
                Some(a.duplicate())
            },
            None => None,
        }
    }
}

/// `o` offers no role that another, different option of `options` does not offer too.
pub open spec fn dominated(o: OptionView, options: Seq<OptionView>) -> bool {
    exists|j: int| 0 <= j < options.len() && spec_is_subset(o.0, #[trigger] options[j].0) && o != options[j]
}

/// The options of `s` that no other option of `options` dominates, in order.
pub open spec fn undominated(s: Seq<OptionView>, options: Seq<OptionView>) -> Seq<OptionView>
    decreases s.len(),
{
    if s.len() == 0 {
        Seq::empty()
    } else {
        let u = undominated(s.drop_last(), options);
        if dominated(s.last(), options) {
            u
        } else {
            u.push(s.last())
        }
    }
}

/// A conclusion's place in the order conclusions compare in, from 1: the
/// order they are declared in.
pub open spec fn conclusion_rank(c: GameConclusion) -> nat {
    match c {
        GameConclusion::Town => 1,
        GameConclusion::Mafia => 2,
        GameConclusion::Cult => 3,
        GameConclusion::Fiends => 4,
        GameConclusion::Politician => 5,
        GameConclusion::NiceList => 6,
        GameConclusion::NaughtyList => 7,
    }
}

/// An insider group's place in the order groups compare in, from 1: the
/// order they are declared in.
pub open spec fn group_rank(g: InsiderGroupID) -> nat {
    match g {
        InsiderGroupID::Mafia => 1,
        InsiderGroupID::Cult => 2,
        InsiderGroupID::Puppeteer => 3,
    }
}

/// The digit of position `i` of `s`: its item's rank, or 0 past its end.
pub open spec fn conclusion_digit(s: Seq<GameConclusion>, i: int) -> nat {
    if 0 <= i < s.len() { conclusion_rank(s[i]) } else { 0 }
}

/// The digit of position `i` of `s`: its item's rank, or 0 past its end.
pub open spec fn group_digit(s: Seq<InsiderGroupID>, i: int) -> nat {
    if 0 <= i < s.len() { group_rank(s[i]) } else { 0 }
}

/// The first `k` conclusions of `s` as the digits of a number in base 8, a
/// missing one counting 0. Numbers compare as the lists do, item by item,
/// with a list before any longer list it begins.
pub open spec fn conclusions_code(s: Seq<GameConclusion>, k: nat) -> nat
    decreases k,
{
    if k == 0 {
        0
    } else {
        conclusions_code(s, (k - 1) as nat) * 8 + conclusion_digit(s, k - 1)
    }
}

/// The first `k` groups of `s` as the digits of a number in base 4, a
/// missing one counting 0.
pub open spec fn groups_code(s: Seq<InsiderGroupID>, k: nat) -> nat
    decreases k,
{
    if k == 0 {
        0
    } else {
        groups_code(s, (k - 1) as nat) * 4 + group_digit(s, k - 1)
    }
}

proof fn lemma_conclusions_code_agree(s: Seq<GameConclusion>, t: Seq<GameConclusion>, j: nat)
    requires
        forall|i: int| 0 <= i < j ==> conclusion_digit(s, i) == conclusion_digit(t, i),
    ensures
        conclusions_code(s, j) == conclusions_code(t, j),
    decreases j,
{
    if j > 0 {
        lemma_conclusions_code_agree(s, t, (j - 1) as nat);
        assert(conclusion_digit(s, j - 1) == conclusion_digit(t, j - 1));
    }
}

proof fn lemma_groups_code_agree(s: Seq<InsiderGroupID>, t: Seq<InsiderGroupID>, j: nat)
    requires
        forall|i: int| 0 <= i < j ==> group_digit(s, i) == group_digit(t, i),
    ensures
        groups_code(s, j) == groups_code(t, j),
    decreases j,
{
    if j > 0 {
        lemma_groups_code_agree(s, t, (j - 1) as nat);
        assert(group_digit(s, j - 1) == group_digit(t, j - 1));
    }
}

/// Codes compare as their lists do: lists that agree up to position `j`
/// and differ there, the first with a lower-ranked item or with no item,
/// get codes in that order, however many positions are coded past `j`.
pub proof fn lemma_conclusions_code_order(s: Seq<GameConclusion>, t: Seq<GameConclusion>, j: nat, m: nat)
    requires
        j < m,
        forall|i: int| 0 <= i < j ==> conclusion_digit(s, i) == conclusion_digit(t, i),
        conclusion_digit(s, j as int) < conclusion_digit(t, j as int),
    ensures
        conclusions_code(s, m) < conclusions_code(t, m),
    decreases m,
{
    if m == j + 1 {
        lemma_conclusions_code_agree(s, t, j);
    } else {
        lemma_conclusions_code_order(s, t, j, (m - 1) as nat);
        assert(conclusion_digit(s, m - 1) <= 7);
    }
}

/// Codes of groups compare as their lists do (see `lemma_conclusions_code_order`).
pub proof fn lemma_groups_code_order(s: Seq<InsiderGroupID>, t: Seq<InsiderGroupID>, j: nat, m: nat)
    requires
        j < m,
        forall|i: int| 0 <= i < j ==> group_digit(s, i) == group_digit(t, i),
        group_digit(s, j as int) < group_digit(t, j as int),
    ensures
        groups_code(s, m) < groups_code(t, m),
    decreases m,
{
    if m == j + 1 {
        lemma_groups_code_agree(s, t, j);
    } else {
        lemma_groups_code_order(s, t, j, (m - 1) as nat);
        assert(group_digit(s, m - 1) <= 3);
    }
}

/// How a win condition compares: the role's own first, then lists of
/// conclusions by their items (the first seven, as many as a list without
/// repeats holds).
pub open spec fn win_condition_key(w: Option<Seq<GameConclusion>>) -> nat {
    match w {
        None => 0,
        Some(s) => 1 + conclusions_code(s, 7),
    }
}

/// How insider groups compare: the role's own first, then lists of groups
/// by their items (the first three, as many as a list without repeats holds).
pub open spec fn insider_groups_key(g: Option<Seq<InsiderGroupID>>) -> nat {
    match g {
        None => 0,
        Some(s) => 1 + groups_code(s, 3),
    }
}

/// The order options are listed in: options offering more roles first, then
/// by win condition, then by insider groups (see `win_condition_key` and
/// `insider_groups_key`).
pub open spec fn option_sort_key(o: OptionView) -> SortKey {
    (
        (u64::MAX - option_roles(o.0).len()) as u64,
        (win_condition_key(o.1) * 65 + insider_groups_key(o.2)) as u64,
    )
}

/// Each option of `s` paired with its key and its position.
pub open spec fn keyed_options(s: Seq<OptionView>) -> Seq<(SortKey, usize)> {
    Seq::new(s.len(), |i: int| (option_sort_key(s[i]), i as usize))
}

/// `s` sorted stably by `option_sort_key`.
pub open spec fn sort_options(s: Seq<OptionView>) -> Seq<OptionView> {
    stable_sort(keyed_options(s)).map_values(|p: (SortKey, usize)| s[p.1 as int])
}

/// What simplifying leaves of `options`: each distinct option that no other
/// option dominates, sorted.
pub open spec fn simplified(options: Seq<OptionView>) -> Seq<OptionView> {
    sort_options(undominated(dedup(options), options))
}

/// The distinct options of `options` that no other, different option covers, in order.
fn undominated_options(options: &Vec<RoleOutlineOption>) -> (r: Vec<RoleOutlineOption>)
    ensures
        options_view(r@) == undominated(dedup(options_view(options@)), options_view(options@)),
{
    let ghost all = options_view(options@);
        let mut unique: Vec<RoleOutlineOption> = Vec::new();
        let mut i: usize = 0;
        while i < options.len()
            invariant
                i <= options@.len(),
                all == options_view(options@),
                options_view(unique@) == dedup(all.take(i as int)),
            decreases options@.len() - i,
        {
            proof {
                assert(all.take(i + 1).drop_last() =~= all.take(i as int));
                assert(all.take(i + 1).last() == options@[i as int]@);
            }
            if !contains_option(&unique, &options[i]) {
                let o = options[i].duplicate();
                let ghost before = unique@;
                unique.push(o);
                proof {
                    assert(options_view(unique@) =~= options_view(before).push(o@));
                }
            }
            i = i + 1;
        }
        assert(all.take(all.len() as int) =~= all);

        let ghost u = options_view(unique@);
        let mut kept: Vec<RoleOutlineOption> = Vec::new();
        let mut j: usize = 0;
        while j < unique.len()
            invariant
                j <= unique@.len(),
                u == options_view(unique@),
                all == options_view(options@),
                options_view(kept@) == undominated(u.take(j as int), all),
            decreases unique@.len() - j,
        {
            proof {
                assert(u.take(j + 1).drop_last() =~= u.take(j as int));
                assert(u.take(j + 1).last() == unique@[j as int]@);
            }
            if !is_dominated(&unique[j], options) {
                let o = unique[j].duplicate();
                let ghost before = kept@;
                kept.push(o);
                proof {
                    assert(options_view(kept@) =~= options_view(before).push(o@));
                }
            }
            j = j + 1;
        }
        assert(u.take(u.len() as int) =~= u);
    kept
}

/// Whether `s` holds an option with the same value as `o`.
fn contains_option(s: &Vec<RoleOutlineOption>, o: &RoleOutlineOption) -> (r: bool)
    ensures
        r == options_view(s@).contains(o@),
{
    let mut i: usize = 0;
    while i < s.len()
        invariant
            i <= s@.len(),
            forall|j: int| 0 <= j < i ==> s@[j]@ != o@,
        decreases s@.len() - i,
    {
        if s[i].same_as(o) {
            assert(options_view(s@)[i as int] == o@);
            return true;
        }
        i = i + 1;
    }
    assert forall|j: int| 0 <= j < options_view(s@).len() implies options_view(s@)[j] != o@ by {
        assert(options_view(s@)[j] == s@[j]@);
    }
    false
}

/// Whether another, different option of `options` offers every role `o` offers.
fn is_dominated(o: &RoleOutlineOption, options: &Vec<RoleOutlineOption>) -> (r: bool)
    ensures
        r == dominated(o@, options_view(options@)),
{
    let mut j: usize = 0;
    while j < options.len()
        invariant
            j <= options@.len(),
            forall|k: int| 0 <= k < j ==> !(spec_is_subset(o@.0, #[trigger] options@[k]@.0) && o@ != options@[k]@),
        decreases options@.len() - j,
    {
        if o.roles.is_subset(&options[j].roles) && !o.same_as(&options[j]) {
            assert(options_view(options@)[j as int] == options@[j as int]@);
            assert(spec_is_subset(o@.0, options_view(options@)[j as int].0));
            return true;
        }
        j = j + 1;
    }
    assert forall|k: int| 0 <= k < options_view(options@).len() implies !(spec_is_subset(
        o@.0,
        #[trigger] options_view(options@)[k].0,
    ) && o@ != options_view(options@)[k]) by {
        assert(options_view(options@)[k] == options@[k]@);
    }
    false
}

fn conclusion_rank_exec(c: GameConclusion) -> (r: u64)
    ensures
        r == conclusion_rank(c),
{
    match c {
        GameConclusion::Town => 1,
        GameConclusion::Mafia => 2,
        GameConclusion::Cult => 3,
        GameConclusion::Fiends => 4,
        GameConclusion::Politician => 5,
        GameConclusion::NiceList => 6,
        GameConclusion::NaughtyList => 7,
    }
}

fn group_rank_exec(g: InsiderGroupID) -> (r: u64)
    ensures
        r == group_rank(g),
{
    match g {
        InsiderGroupID::Mafia => 1,
        InsiderGroupID::Cult => 2,
        InsiderGroupID::Puppeteer => 3,
    }
}

fn win_key_exec(w: &RoleOutlineOptionWinCondition) -> (r: u64)
    ensures
        r == win_condition_key(w@),
        r <= 2097152,
{
    match w {
        RoleOutlineOptionWinCondition::RoleDefault => 0,
        RoleOutlineOptionWinCondition::GameConclusionReached { win_if_any } => {
            let items = win_if_any.as_vec();
            let mut code: u64 = 0;
            let mut i: usize = 0;
            while i < 7
                invariant
                    i <= 7,
                    items@ == win_if_any@,
                    code == conclusions_code(items@, i as nat),
                    code < if i == 0 { 1nat } else if i == 1 { 8nat } else if i == 2 { 64nat } else if i == 3 { 512nat }
                        else if i == 4 { 4096nat } else if i == 5 { 32768nat } else if i == 6 { 262144nat } else { 2097152nat },
                decreases 7 - i,
            {
                let d: u64 = if i < items.len() { conclusion_rank_exec(items[i]) } else { 0 };
                assert(d == conclusion_digit(items@, i as int));
                code = code * 8 + d;
                i = i + 1;
            }
            code + 1
        },
    }
}

fn groups_key_exec(g: &RoleOutlineOptionInsiderGroups) -> (r: u64)
    ensures
        r == insider_groups_key(g@),
        r <= 64,
{
    match g {
        RoleOutlineOptionInsiderGroups::RoleDefault => 0,
        RoleOutlineOptionInsiderGroups::Custom { insider_groups } => {
            let items = insider_groups.as_vec();
            let mut code: u64 = 0;
            let mut i: usize = 0;
            while i < 3
                invariant
                    i <= 3,
                    items@ == insider_groups@,
                    code == groups_code(items@, i as nat),
                    code < if i == 0 { 1nat } else if i == 1 { 4nat } else if i == 2 { 16nat } else { 64nat },
                decreases 3 - i,
            {
                let d: u64 = if i < items.len() { group_rank_exec(items[i]) } else { 0 };
                assert(d == group_digit(items@, i as int));
                code = code * 4 + d;
                i = i + 1;
            }
            code + 1
        },
    }
}

fn option_key(o: &RoleOutlineOption) -> (r: SortKey)
    ensures
        r == option_sort_key(o@),
{
    let count = o.roles.get_roles().len() as u64;
    let w = win_key_exec(&o.win_condition);
    let g = groups_key_exec(&o.insider_groups);
    (u64::MAX - count, w * 65 + g)
}

impl RoleOutline {
    /// Whether `simplify` accepts the outline: some option is left once
    /// repeats and covered options are dropped.
    pub fn can_simplify(&self) -> (r: bool)
        ensures
            r == (undominated(dedup(self@), self@).len() > 0),
    {
        let options = options_as_vec(&self.options);
        undominated_options(options).len() > 0
    }

    /// Simplifies the outline where `simplify` accepts it, and says whether
    /// it did; an outline it does not accept is left as it is.
    pub fn try_simplify(&mut self) -> (r: bool)
        ensures
            r == (undominated(dedup(old(self)@), old(self)@).len() > 0),
            r ==> final(self)@ == simplified(old(self)@),
            !r ==> final(self)@ == old(self)@,
    {
        if self.can_simplify() {
            self.simplify();
            true
        } else {
            false
        }
    }

    /// Drops repeated options and every option that another, different option
    /// covers, then sorts the rest: options offering more roles first, then
    /// by win condition (the role's own first, then lists of conclusions item
    /// by item), then by insider groups in the same way; ties keep their order.
    ///
    /// Every option being covered by another would leave the outline empty;
    /// such outlines are not accepted.
    pub fn simplify(&mut self)
        requires
            undominated(dedup(old(self)@), old(self)@).len() > 0,
        ensures
            final(self)@ == simplified(old(self)@),
    {
        let options = options_as_vec(&self.options);
        let ghost all = options_view(options@);
        assert(all == old(self)@);
        let kept = undominated_options(options);
        let ghost k = options_view(kept@);
        assert(k == undominated(dedup(all), all));

        let mut keyed: Vec<(SortKey, usize)> = Vec::new();
        let mut m: usize = 0;
        while m < kept.len()
            invariant
                m <= kept@.len(),
                k == options_view(kept@),
                keyed@ =~= keyed_options(k).take(m as int),
            decreases kept@.len() - m,
        {
            keyed.push((option_key(&kept[m]), m));
            m = m + 1;
        }
        assert(keyed@ =~= keyed_options(k));
        let sorted = sort_by_key(keyed);
        proof {
            lemma_stable_sort_items(keyed_options(k));
        }

        let mut result: Vec<RoleOutlineOption> = Vec::new();
        let mut n: usize = 0;
        while n < sorted.len()
            invariant
                n <= sorted@.len(),
                k == options_view(kept@),
                sorted@ == stable_sort(keyed_options(k)),
                sorted@.len() == k.len(),
                forall|x: (SortKey, usize)| sorted@.contains(x) <==> keyed_options(k).contains(x),
                options_view(result@) =~= sort_options(k).take(n as int),
            decreases sorted@.len() - n,
        {
            let idx = sorted[n].1;
            proof {
                assert(sorted@.contains(sorted@[n as int]));
                let w = choose|w: int| 0 <= w < keyed_options(k).len() && keyed_options(k)[w] == sorted@[n as int];
                assert(idx as int == w);
            }
            let o = kept[idx].duplicate();
            let ghost before = result@;
            result.push(o);
            proof {
                assert(options_view(result@) =~= options_view(before).push(o@));
            }
            n = n + 1;
        }
        assert(options_view(result@) =~= sort_options(k));
        assert(sort_options(k).len() == k.len());
        assert(result@.len() > 0);
        match options_try_from_vec(result) {
            Some(v) => {
                self.options = v;
            },
            None => {},
        }
    }
}

/// Draws for the first outlines of `list`, each one an assignment its outline
/// could give once the roles drawn before it were taken.
pub open spec fn valid_draw(list: Seq<Seq<OptionView>>, enabled_roles: Seq<Role>, draws: Seq<AssignmentView>) -> bool {
    &&& draws.len() <= list.len()
    &&& forall|i: int|
        0 <= i < draws.len() ==> generatable(outline_assignments(list[i]), enabled_roles, assignment_roles(draws.take(i))).contains(
            #[trigger] draws[i],
        )
}

/// The outlines of a game, one per player.
#[derive(Debug)]
pub struct RoleList(pub Vec<RoleOutline>);

impl View for RoleList {
    type V = Seq<Seq<OptionView>>;

    open spec fn view(&self) -> Seq<Seq<OptionView>> {
        self.0@.map_values(|o: RoleOutline| o@)
    }
}

impl RoleList {
    /// Draws a role for each outline in order, each from the roles that can
    /// still be drawn once the earlier draws are taken. `None` when some
    /// outline has nothing left to draw.
    pub fn create_random_role_assignments(&self, enabled_roles: &VecSet<Role>) -> (r: Option<Vec<RoleAssignment>>)
        ensures
            r matches Some(v) ==> v@.len() == self@.len() && valid_draw(self@, enabled_roles@, assignments_view(v@)),
            r is None ==> exists|d: Seq<AssignmentView>|
                d.len() < self@.len() && valid_draw(self@, enabled_roles@, d) && generatable(
                    outline_assignments(#[trigger] self@[d.len() as int]),
                    enabled_roles@,
                    assignment_roles(d),
                ).len() == 0,
    {
        let mut generated: Vec<RoleAssignment> = Vec::new();
        let mut taken: Vec<Role> = Vec::new();
        let mut i: usize = 0;
        while i < self.0.len()
            invariant
                i <= self.0@.len(),
                generated@.len() == i,
                taken@ == assignment_roles(assignments_view(generated@)),
                valid_draw(self@, enabled_roles@, assignments_view(generated@)),
            decreases self.0@.len() - i,
        {
            let ghost d = assignments_view(generated@);
            assert(self@[i as int] == self.0@[i as int]@);
            match self.0[i].get_random_role_assignments(enabled_roles, taken.as_slice()) {
                Some(a) => {
                    let role = a.role;
                    generated.push(a);
                    taken.push(role);
                    proof {
                        let d2 = assignments_view(generated@);
                        assert(d2 =~= d.push(a@));
                        assert(taken@ =~= assignment_roles(d2));
                        assert(d2.take(i as int) =~= d);
                        assert forall|j: int| 0 <= j < d2.len() implies generatable(
                            outline_assignments(self@[j]),
                            enabled_roles@,
                            assignment_roles(d2.take(j)),
                        ).contains(#[trigger] d2[j]) by {
                            if j < i {
                                assert(d2.take(j) =~= d.take(j));
                                assert(d2[j] == d[j]);
                            }
                        }
                    }
                },
                None => {
                    assert(d.len() < self@.len() && valid_draw(self@, enabled_roles@, d));
                    return None;
                },
            }
            i = i + 1;
        }
        Some(generated)
    }
}


/// The key a role list is sorted by: the number of assignments an outline offers.
pub open spec fn outline_sort_key(o: Seq<OptionView>) -> SortKey {
    (outline_assignments(o).len() as u64, 0u64)
}

/// Each outline of `s` paired with its key.
pub open spec fn keyed_outlines(s: Seq<RoleOutline>) -> Seq<(SortKey, RoleOutline)> {
    Seq::new(s.len(), |i: int| (outline_sort_key(s[i]@), s[i]))
}

/// `s` sorted stably by the number of assignments each outline offers, fewest first.
pub open spec fn sorted_outlines(s: Seq<RoleOutline>) -> Seq<RoleOutline> {
    stable_sort(keyed_outlines(s)).map_values(|p: (SortKey, RoleOutline)| p.1)
}

/// Sorting a role list keeps its outlines, as many and the same ones, and
/// puts them in order of how many assignments each offers, fewest first.
pub proof fn lemma_sorted_outlines(s: Seq<RoleOutline>)
    ensures
        sorted_outlines(s).len() == s.len(),
        forall|o: RoleOutline| #[trigger] sorted_outlines(s).contains(o) <==> s.contains(o),
        forall|i: int, j: int|
            0 <= i < j < s.len() ==> outline_sort_key((#[trigger] sorted_outlines(s)[i])@).0
                <= outline_sort_key((#[trigger] sorted_outlines(s)[j])@).0,
{
    let ks = keyed_outlines(s);
    let st = stable_sort(ks);
    lemma_stable_sort_items(ks);
    lemma_stable_sort_ordered(ks);
    let out = sorted_outlines(s);
    assert forall|i: int| 0 <= i < st.len() implies #[trigger] st[i].0 == outline_sort_key(st[i].1@) by {
        assert(ks.contains(st[i]));
        let k = choose|k: int| 0 <= k < ks.len() && ks[k] == st[i];
        assert(ks[k] == (outline_sort_key(s[k]@), s[k]));
    }
    assert forall|o: RoleOutline| #[trigger] out.contains(o) <==> s.contains(o) by {
        if out.contains(o) {
            let i = choose|i: int| 0 <= i < out.len() && out[i] == o;
            assert(ks.contains(st[i]));
            let k = choose|k: int| 0 <= k < ks.len() && ks[k] == st[i];
            assert(s[k] == o);
        }
        if s.contains(o) {
            let k = choose|k: int| 0 <= k < s.len() && s[k] == o;
            assert(ks[k] == (outline_sort_key(s[k]@), s[k]));
            assert(ks.contains(ks[k]));
            assert(st.contains(ks[k]));
            let i = choose|i: int| 0 <= i < st.len() && st[i] == ks[k];
            assert(out[i] == o);
        }
    }
    assert forall|i: int, j: int| 0 <= i < j < s.len() implies outline_sort_key((#[trigger] out[i])@).0
        <= outline_sort_key((#[trigger] out[j])@).0 by {
        assert(key_le(st[i].0, st[j].0));
        assert(st[i].0 == outline_sort_key(st[i].1@));
        assert(st[j].0 == outline_sort_key(st[j].1@));
    }
}

impl RoleList {
    /// Simplifies every outline where `simplify` accepts each of them, and
    /// says whether it did; otherwise the list is left as it is.
    pub fn try_simplify(&mut self) -> (r: bool)
        ensures
            r == forall|i: int| 0 <= i < old(self)@.len() ==> undominated(dedup(#[trigger] old(self)@[i]), old(self)@[i]).len() > 0,
            r ==> final(self)@.len() == old(self)@.len() && forall|i: int|
                0 <= i < old(self)@.len() ==> #[trigger] final(self)@[i] == simplified(old(self)@[i]),
            !r ==> final(self)@ == old(self)@,
    {
        let mut i: usize = 0;
        while i < self.0.len()
            invariant
                i <= self.0@.len(),
                forall|j: int| 0 <= j < i ==> undominated(dedup(#[trigger] self@[j]), self@[j]).len() > 0,
            decreases self.0@.len() - i,
        {
            let ok = self.0[i].can_simplify();
            assert(self@[i as int] == self.0@[i as int]@);
            if !ok {
                return false;
            }
            i = i + 1;
        }
        self.simplify();
        true
    }

    /// Simplifies every outline (see `RoleOutline::simplify`).
    pub fn simplify(&mut self)
        requires
            forall|i: int| 0 <= i < old(self)@.len() ==> undominated(dedup(#[trigger] old(self)@[i]), old(self)@[i]).len() > 0,
        ensures
            final(self)@.len() == old(self)@.len(),
            forall|i: int| 0 <= i < old(self)@.len() ==> #[trigger] final(self)@[i] == simplified(old(self)@[i]),
    {
        let ghost start = self@;
        let mut rest: Vec<RoleOutline> = Vec::new();
        std::mem::swap(&mut rest, &mut self.0);
        assert(rest@.map_values(|o: RoleOutline| o@) == start);
        let ghost original = rest@;
        let n = rest.len();
        let mut out: Vec<RoleOutline> = Vec::new();
        let mut i: usize = 0;
        while rest.len() > 0
            invariant
                n == original.len(),
                start == original.map_values(|o: RoleOutline| o@),
                i + rest@.len() == n,
                rest@ == original.skip(i as int),
                out@.len() == i,
                forall|j: int| 0 <= j < i ==> #[trigger] out@[j]@ == simplified(original[j]@),
                forall|j: int| 0 <= j < n ==> undominated(dedup(#[trigger] start[j]), start[j]).len() > 0,
            decreases rest@.len(),
        {
            let mut o = rest.remove(0);
            assert(o == original[i as int]);
            assert(start[i as int] == o@);
            o.simplify();
            out.push(o);
            i = i + 1;
            assert(rest@ =~= original.skip(i as int));
        }
        self.0 = out;
    }

    /// Sorts the outlines by how many assignments each offers, fewest first;
    /// ties keep their order.
    pub fn sort(&mut self)
        ensures
            final(self).0@ == sorted_outlines(old(self).0@),
    {
        let mut rest: Vec<RoleOutline> = Vec::new();
        std::mem::swap(&mut rest, &mut self.0);
        let ghost original = rest@;
        let n = rest.len();
        let mut keyed: Vec<(SortKey, RoleOutline)> = Vec::new();
        let mut i: usize = 0;
        while rest.len() > 0
            invariant
                n == original.len(),
                i + rest@.len() == n,
                rest@ == original.skip(i as int),
                keyed@ =~= keyed_outlines(original).take(i as int),
            decreases rest@.len(),
        {
            let o = rest.remove(0);
            assert(o == original[i as int]);
            let count = o.get_role_assignments().len() as u64;
            keyed.push(((count, 0), o));
            i = i + 1;
            assert(rest@ =~= original.skip(i as int));
        }
        assert(keyed@ =~= keyed_outlines(original));
        let mut sorted = sort_by_key(keyed);
        proof {
            lemma_stable_sort_items(keyed_outlines(original));
        }
        let ghost s = sorted@;
        let m = sorted.len();
        let mut out: Vec<RoleOutline> = Vec::new();
        let mut j: usize = 0;
        while sorted.len() > 0
            invariant
                m == s.len(),
                j + sorted@.len() == m,
                sorted@ == s.skip(j as int),
                out@ =~= s.map_values(|p: (SortKey, RoleOutline)| p.1).take(j as int),
            decreases sorted@.len(),
        {
            let p = sorted.remove(0);
            assert(p == s[j as int]);
            out.push(p.1);
            j = j + 1;
            assert(sorted@ =~= s.skip(j as int));
        }
        assert(out@ =~= sorted_outlines(original));
        self.0 = out;
    }
}


/// What `generatable` keeps is in its input and can be drawn.
pub proof fn lemma_generatable_contains(s: Seq<AssignmentView>, enabled_roles: Seq<Role>, taken_roles: Seq<Role>, x: AssignmentView)
    requires
        generatable(s, enabled_roles, taken_roles).contains(x),
    ensures
        s.contains(x),
        spec_role_can_generate(x.0, enabled_roles, taken_roles),
    decreases s.len(),
{
    broadcast use vstd::seq_lib::group_seq_properties;
    if s.len() > 0 {
        let g = generatable(s.drop_last(), enabled_roles, taken_roles);
        if g.contains(x) {
            lemma_generatable_contains(s.drop_last(), enabled_roles, taken_roles, x);
            crate::vec_set::lemma_contains_drop_last(s, x);
        } else {
            assert(x == s.last());
            crate::vec_set::lemma_contains_drop_last(s, x);
        }
    }
}

/// A role list never draws a limited role more often than its limit: in every
/// run of draws the role list can make, each role with a maximum count occurs
/// at most that many times.
pub proof fn lemma_draws_respect_maximum_count(
    list: Seq<Seq<OptionView>>,
    enabled_roles: Seq<Role>,
    draws: Seq<AssignmentView>,
    role: Role,
)
    requires
        valid_draw(list, enabled_roles, draws),
        spec_maximum_count(role) is Some,
    ensures
        count_role(assignment_roles(draws), role) <= spec_maximum_count(role).unwrap(),
    decreases draws.len(),
{
    if draws.len() > 0 {
        let n = draws.len() - 1;
        let before = draws.take(n);
        assert forall|i: int| 0 <= i < before.len() implies generatable(
            outline_assignments(list[i]),
            enabled_roles,
            assignment_roles(before.take(i)),
        ).contains(#[trigger] before[i]) by {
            assert(before.take(i) =~= draws.take(i));
            assert(before[i] == draws[i]);
        }
        lemma_draws_respect_maximum_count(list, enabled_roles, before, role);
        assert(generatable(outline_assignments(list[n]), enabled_roles, assignment_roles(draws.take(n))).contains(draws[n]));
        lemma_generatable_contains(outline_assignments(list[n]), enabled_roles, assignment_roles(before), draws[n]);
        assert(assignment_roles(draws).drop_last() =~= assignment_roles(before));
    }
}


proof fn lemma_undominated_contains(s: Seq<OptionView>, options: Seq<OptionView>, x: OptionView)
    ensures
        undominated(s, options).contains(x) <==> (s.contains(x) && !dominated(x, options)),
        undominated(s, options).len() <= s.len(),
    decreases s.len(),
{
    broadcast use vstd::seq_lib::group_seq_properties;
    if s.len() > 0 {
        lemma_undominated_contains(s.drop_last(), options, x);
        crate::vec_set::lemma_contains_drop_last(s, x);
    }
}

proof fn lemma_sort_options_contains(k: Seq<OptionView>, x: OptionView)
    requires
        k.len() <= usize::MAX,
    ensures
        sort_options(k).contains(x) <==> k.contains(x),
{
    lemma_stable_sort_items(keyed_options(k));
    let sorted = stable_sort(keyed_options(k));
    if sort_options(k).contains(x) {
        let i = choose|i: int| 0 <= i < sort_options(k).len() && sort_options(k)[i] == x;
        assert(sorted.contains(sorted[i]));
        assert(keyed_options(k).contains(sorted[i]));
        let w = choose|w: int| 0 <= w < keyed_options(k).len() && keyed_options(k)[w] == sorted[i];
        assert(sort_options(k)[i] == k[sorted[i].1 as int]);
        assert(0 <= w < k.len());
        assert(keyed_options(k)[w] == (option_sort_key(k[w]), w as usize));
        assert((w as usize) as int == w);
        assert(k[w] == x);
    }
    if k.contains(x) {
        let w = choose|w: int| 0 <= w < k.len() && k[w] == x;
        assert(keyed_options(k).contains(keyed_options(k)[w]));
        let pair = keyed_options(k)[w];
        assert(keyed_options(k).contains(pair));
        assert(sorted.contains(pair));
        let i = choose|i: int| 0 <= i < sorted.len() && sorted[i] == pair;
        assert(pair.1 as int == w);
        assert(sort_options(k)[i] == k[sorted[i].1 as int]);
        assert(sort_options(k)[i] == x);
    }
}

/// Simplifying an outline keeps exactly its options that no other, different
/// option covers: every option left was in the outline and is not covered,
/// and every such option of the outline is left.
pub proof fn lemma_simplified_options(options: Seq<OptionView>, x: OptionView)
    requires
        options.len() <= usize::MAX,
    ensures
        simplified(options).contains(x) <==> (options.contains(x) && !dominated(x, options)),
{
    lemma_dedup(options);
    lemma_undominated_contains(dedup(options), options, x);
    lemma_sort_options_contains(undominated(dedup(options), options), x);
}

/// The order `sort_options` leaves options in: by `option_sort_key`, smallest first.
proof fn lemma_sort_options_ordered(k: Seq<OptionView>)
    requires
        k.len() <= usize::MAX,
    ensures
        forall|i: int, j: int|
            0 <= i < j < sort_options(k).len() ==> key_le(
                option_sort_key(#[trigger] sort_options(k)[i]),
                option_sort_key(#[trigger] sort_options(k)[j]),
            ),
{
    let keyed = keyed_options(k);
    let sorted = stable_sort(keyed);
    lemma_stable_sort_items(keyed);
    lemma_stable_sort_ordered(keyed);
    assert forall|i: int| 0 <= i < sorted.len() implies #[trigger] sorted[i].0 == option_sort_key(
        sort_options(k)[i],
    ) by {
        assert(sorted.contains(sorted[i]));
        assert(keyed.contains(sorted[i]));
        let w = choose|w: int| 0 <= w < keyed.len() && keyed[w] == sorted[i];
        assert(0 <= w < k.len());
        assert(keyed[w] == (option_sort_key(k[w]), w as usize));
        assert((w as usize) as int == w);
        assert(sort_options(k)[i] == k[sorted[i].1 as int]);
    }
    assert forall|i: int, j: int| 0 <= i < j < sort_options(k).len() implies key_le(
        option_sort_key(#[trigger] sort_options(k)[i]),
        option_sort_key(#[trigger] sort_options(k)[j]),
    ) by {
        assert(key_le(sorted[i].0, sorted[j].0));
        assert(sorted[i].0 == option_sort_key(sort_options(k)[i]));
        assert(sorted[j].0 == option_sort_key(sort_options(k)[j]));
    }
}

/// A simplified outline lists its options in order: those offering more
/// roles first, then by win condition, then by insider groups (see
/// `option_sort_key`).
pub proof fn lemma_simplified_ordered(options: Seq<OptionView>)
    requires
        options.len() <= usize::MAX,
    ensures
        forall|i: int, j: int|
            0 <= i < j < simplified(options).len() ==> key_le(
                option_sort_key(#[trigger] simplified(options)[i]),
                option_sort_key(#[trigger] simplified(options)[j]),
            ),
{
    let u = undominated(dedup(options), options);
    lemma_dedup(options);
    lemma_undominated_contains(dedup(options), options, options[0]);
    lemma_sort_options_ordered(u);
}

} // verus!

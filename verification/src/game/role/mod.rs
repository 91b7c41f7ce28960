//! The role catalogue and the properties every role has.

use vstd::prelude::*;
use crate::vec_set::SetItem;
use super::Game;
use super::player::PlayerReference;

pub mod common_role;
pub mod spy;
pub mod santa_claus;
pub mod trapper;
pub mod werewolf;
pub mod reeducator;
pub mod tavernkeep;
pub mod seeker;
pub mod telepath;
pub mod steward;
pub mod yer;
pub mod warden;
pub mod puppeteer;
pub mod reporter;
pub mod mortician;
pub mod ojo;
pub mod pathologist;
pub mod philosopher;
pub mod politician;
pub mod porter;
pub mod psychopomp;
pub mod psychic;
pub mod pyrolisk;
pub mod rabblerouser;
pub mod recruiter;
pub mod retrainer;
pub mod necromancer;
pub mod retributionist;
pub mod revolutionary;
pub mod scarecrow;
pub mod serial_killer;
pub mod sheriff;
pub mod snoop;
pub mod spiral;
pub mod supervisor;
pub mod tally_clerk;
pub mod tracker;
pub mod transporter;
pub mod true_wildcard;
pub mod vampire;
pub mod veteran;
pub mod vigilante;
pub mod vigiloop;
pub mod villager;
pub mod voodoo_master;
pub mod wanderer;
pub mod warper;
pub mod witch;
pub mod wild_card;
pub mod wizard;
pub mod minion;
pub mod zealot;

verus! {

/// Every role a player can hold.
#[derive(Clone, Copy, PartialEq, Eq, Structural, Debug, Hash)]
pub enum Role {
    Jailor,
    Villager,
    Drunk,
    Detective,
    Lookout,
    Spy,
    Tracker,
    Philosopher,
    Psychic,
    Auditor,
    Snoop,
    Gossip,
    TallyClerk,
    Doctor,
    Bodyguard,
    Cop,
    Bouncer,
    Engineer,
    Armorsmith,
    Steward,
    Vigilante,
    Veteran,
    Marksman,
    Deputy,
    Rabblerouser,
    Escort,
    Medium,
    Retributionist,
    Reporter,
    Mayor,
    Transporter,
    Godfather,
    Counterfeiter,
    Impostor,
    Recruiter,
    Mafioso,
    MafiaKillingWildcard,
    Goon,
    Consort,
    Hypnotist,
    Blackmailer,
    Informant,
    MafiaWitch,
    Necromancer,
    Mortician,
    Framer,
    Disguiser,
    Forger,
    Reeducator,
    Cupid,
    MafiaSupportWildcard,
    Jester,
    Revolutionary,
    Geist,
    Politician,
    Doomsayer,
    Wildcard,
    TrueWildcard,
    Martyr,
    Witch,
    Scarecrow,
    Warper,
    Kidnapper,
    Chronokaiser,
    Arsonist,
    Werewolf,
    Ojo,
    Puppeteer,
    Pyrolisk,
    Spiral,
    Kira,
    FiendsWildcard,
    SerialKiller,
    Apostle,
    Disciple,
    Zealot,
    Coxswain,
    Porter,
    Polymath,
    Ambusher,
    SantaClaus,
    Krampus,
    Warden,
    Yer,
    Minion,
    Pathologist,
    Psychopomp,
    Seeker,
    Supervisor,
    Tavernkeep,
    Telepath,
    Vampire,
    Vigiloop,
    Wanderer,
    Wizard,
    Retrainer,
    Trapper,
    Sheriff,
}

/// The number of roles.
pub const ROLE_COUNT: u8 = 98;

/// The position of a role in the catalogue.
pub open spec fn role_index(r: Role) -> int {
    match r {
        Role::Jailor => 0,
        Role::Villager => 1,
        Role::Drunk => 2,
        Role::Detective => 3,
        Role::Lookout => 4,
        Role::Spy => 5,
        Role::Tracker => 6,
        Role::Philosopher => 7,
        Role::Psychic => 8,
        Role::Auditor => 9,
        Role::Snoop => 10,
        Role::Gossip => 11,
        Role::TallyClerk => 12,
        Role::Doctor => 13,
        Role::Bodyguard => 14,
        Role::Cop => 15,
        Role::Bouncer => 16,
        Role::Engineer => 17,
        Role::Armorsmith => 18,
        Role::Steward => 19,
        Role::Vigilante => 20,
        Role::Veteran => 21,
        Role::Marksman => 22,
        Role::Deputy => 23,
        Role::Rabblerouser => 24,
        Role::Escort => 25,
        Role::Medium => 26,
        Role::Retributionist => 27,
        Role::Reporter => 28,
        Role::Mayor => 29,
        Role::Transporter => 30,
        Role::Godfather => 31,
        Role::Counterfeiter => 32,
        Role::Impostor => 33,
        Role::Recruiter => 34,
        Role::Mafioso => 35,
        Role::MafiaKillingWildcard => 36,
        Role::Goon => 37,
        Role::Consort => 38,
        Role::Hypnotist => 39,
        Role::Blackmailer => 40,
        Role::Informant => 41,
        Role::MafiaWitch => 42,
        Role::Necromancer => 43,
        Role::Mortician => 44,
        Role::Framer => 45,
        Role::Disguiser => 46,
        Role::Forger => 47,
        Role::Reeducator => 48,
        Role::Cupid => 49,
        Role::MafiaSupportWildcard => 50,
        Role::Jester => 51,
        Role::Revolutionary => 52,
        Role::Geist => 53,
        Role::Politician => 54,
        Role::Doomsayer => 55,
        Role::Wildcard => 56,
        Role::TrueWildcard => 57,
        Role::Martyr => 58,
        Role::Witch => 59,
        Role::Scarecrow => 60,
        Role::Warper => 61,
        Role::Kidnapper => 62,
        Role::Chronokaiser => 63,
        Role::Arsonist => 64,
        Role::Werewolf => 65,
        Role::Ojo => 66,
        Role::Puppeteer => 67,
        Role::Pyrolisk => 68,
        Role::Spiral => 69,
        Role::Kira => 70,
        Role::FiendsWildcard => 71,
        Role::SerialKiller => 72,
        Role::Apostle => 73,
        Role::Disciple => 74,
        Role::Zealot => 75,
        Role::Coxswain => 76,
        Role::Porter => 77,
        Role::Polymath => 78,
        Role::Ambusher => 79,
        Role::SantaClaus => 80,
        Role::Krampus => 81,
        Role::Warden => 82,
        Role::Yer => 83,
        Role::Minion => 84,
        Role::Pathologist => 85,
        Role::Psychopomp => 86,
        Role::Seeker => 87,
        Role::Supervisor => 88,
        Role::Tavernkeep => 89,
        Role::Telepath => 90,
        Role::Vampire => 91,
        Role::Vigiloop => 92,
        Role::Wanderer => 93,
        Role::Wizard => 94,
        Role::Retrainer => 95,
        Role::Trapper => 96,
        Role::Sheriff => 97,
    }
}

/// The role at a position of the catalogue.
pub open spec fn role_at(i: int) -> Role {
    if i == 0 {
        Role::Jailor
    } else if i == 1 {
        Role::Villager
    } else if i == 2 {
        Role::Drunk
    } else if i == 3 {
        Role::Detective
    } else if i == 4 {
        Role::Lookout
    } else if i == 5 {
        Role::Spy
    } else if i == 6 {
        Role::Tracker
    } else if i == 7 {
        Role::Philosopher
    } else if i == 8 {
        Role::Psychic
    } else if i == 9 {
        Role::Auditor
    } else if i == 10 {
        Role::Snoop
    } else if i == 11 {
        Role::Gossip
    } else if i == 12 {
        Role::TallyClerk
    } else if i == 13 {
        Role::Doctor
    } else if i == 14 {
        Role::Bodyguard
    } else if i == 15 {
        Role::Cop
    } else if i == 16 {
        Role::Bouncer
    } else if i == 17 {
        Role::Engineer
    } else if i == 18 {
        Role::Armorsmith
    } else if i == 19 {
        Role::Steward
    } else if i == 20 {
        Role::Vigilante
    } else if i == 21 {
        Role::Veteran
    } else if i == 22 {
        Role::Marksman
    } else if i == 23 {
        Role::Deputy
    } else if i == 24 {
        Role::Rabblerouser
    } else if i == 25 {
        Role::Escort
    } else if i == 26 {
        Role::Medium
    } else if i == 27 {
        Role::Retributionist
    } else if i == 28 {
        Role::Reporter
    } else if i == 29 {
        Role::Mayor
    } else if i == 30 {
        Role::Transporter
    } else if i == 31 {
        Role::Godfather
    } else if i == 32 {
        Role::Counterfeiter
    } else if i == 33 {
        Role::Impostor
    } else if i == 34 {
        Role::Recruiter
    } else if i == 35 {
        Role::Mafioso
    } else if i == 36 {
        Role::MafiaKillingWildcard
    } else if i == 37 {
        Role::Goon
    } else if i == 38 {
        Role::Consort
    } else if i == 39 {
        Role::Hypnotist
    } else if i == 40 {
        Role::Blackmailer
    } else if i == 41 {
        Role::Informant
    } else if i == 42 {
        Role::MafiaWitch
    } else if i == 43 {
        Role::Necromancer
    } else if i == 44 {
        Role::Mortician
    } else if i == 45 {
        Role::Framer
    } else if i == 46 {
        Role::Disguiser
    } else if i == 47 {
        Role::Forger
    } else if i == 48 {
        Role::Reeducator
    } else if i == 49 {
        Role::Cupid
    } else if i == 50 {
        Role::MafiaSupportWildcard
    } else if i == 51 {
        Role::Jester
    } else if i == 52 {
        Role::Revolutionary
    } else if i == 53 {
        Role::Geist
    } else if i == 54 {
        Role::Politician
    } else if i == 55 {
        Role::Doomsayer
    } else if i == 56 {
        Role::Wildcard
    } else if i == 57 {
        Role::TrueWildcard
    } else if i == 58 {
        Role::Martyr
    } else if i == 59 {
        Role::Witch
    } else if i == 60 {
        Role::Scarecrow
    } else if i == 61 {
        Role::Warper
    } else if i == 62 {
        Role::Kidnapper
    } else if i == 63 {
        Role::Chronokaiser
    } else if i == 64 {
        Role::Arsonist
    } else if i == 65 {
        Role::Werewolf
    } else if i == 66 {
        Role::Ojo
    } else if i == 67 {
        Role::Puppeteer
    } else if i == 68 {
        Role::Pyrolisk
    } else if i == 69 {
        Role::Spiral
    } else if i == 70 {
        Role::Kira
    } else if i == 71 {
        Role::FiendsWildcard
    } else if i == 72 {
        Role::SerialKiller
    } else if i == 73 {
        Role::Apostle
    } else if i == 74 {
        Role::Disciple
    } else if i == 75 {
        Role::Zealot
    } else if i == 76 {
        Role::Coxswain
    } else if i == 77 {
        Role::Porter
    } else if i == 78 {
        Role::Polymath
    } else if i == 79 {
        Role::Ambusher
    } else if i == 80 {
        Role::SantaClaus
    } else if i == 81 {
        Role::Krampus
    } else if i == 82 {
        Role::Warden
    } else if i == 83 {
        Role::Yer
    } else if i == 84 {
        Role::Minion
    } else if i == 85 {
        Role::Pathologist
    } else if i == 86 {
        Role::Psychopomp
    } else if i == 87 {
        Role::Seeker
    } else if i == 88 {
        Role::Supervisor
    } else if i == 89 {
        Role::Tavernkeep
    } else if i == 90 {
        Role::Telepath
    } else if i == 91 {
        Role::Vampire
    } else if i == 92 {
        Role::Vigiloop
    } else if i == 93 {
        Role::Wanderer
    } else if i == 94 {
        Role::Wizard
    } else if i == 95 {
        Role::Retrainer
    } else if i == 96 {
        Role::Trapper
    } else {
        Role::Sheriff
    }
}

/// All roles, in catalogue order.
pub open spec fn all_roles() -> Seq<Role> {
    Seq::new(ROLE_COUNT as nat, |i: int| role_at(i))
}

/// Positions and roles correspond one to one.
pub proof fn lemma_role_index()
    ensures
        forall|i: int| 0 <= i < ROLE_COUNT ==> role_index(#[trigger] role_at(i)) == i,
        forall|r: Role| role_at(#[trigger] role_index(r)) == r,
        forall|r: Role| 0 <= #[trigger] role_index(r) < ROLE_COUNT,
{
}

/// The catalogue lists every role exactly once.
pub proof fn lemma_all_roles()
    ensures
        all_roles().no_duplicates(),
        forall|r: Role| #[trigger] all_roles().contains(r),
        all_roles().len() == ROLE_COUNT,
{
    lemma_role_index();
    assert forall|r: Role| #[trigger] all_roles().contains(r) by {
        assert(all_roles()[role_index(r)] == r);
    }
}

fn role_at_exec(i: u8) -> (r: Role)
    requires
        i < ROLE_COUNT,
    ensures
        r == role_at(i as int),
{
    match i {
        0 => Role::Jailor,
        1 => Role::Villager,
        2 => Role::Drunk,
        3 => Role::Detective,
        4 => Role::Lookout,
        5 => Role::Spy,
        6 => Role::Tracker,
        7 => Role::Philosopher,
        8 => Role::Psychic,
        9 => Role::Auditor,
        10 => Role::Snoop,
        11 => Role::Gossip,
        12 => Role::TallyClerk,
        13 => Role::Doctor,
        14 => Role::Bodyguard,
        15 => Role::Cop,
        16 => Role::Bouncer,
        17 => Role::Engineer,
        18 => Role::Armorsmith,
        19 => Role::Steward,
        20 => Role::Vigilante,
        21 => Role::Veteran,
        22 => Role::Marksman,
        23 => Role::Deputy,
        24 => Role::Rabblerouser,
        25 => Role::Escort,
        26 => Role::Medium,
        27 => Role::Retributionist,
        28 => Role::Reporter,
        29 => Role::Mayor,
        30 => Role::Transporter,
        31 => Role::Godfather,
        32 => Role::Counterfeiter,
        33 => Role::Impostor,
        34 => Role::Recruiter,
        35 => Role::Mafioso,
        36 => Role::MafiaKillingWildcard,
        37 => Role::Goon,
        38 => Role::Consort,
        39 => Role::Hypnotist,
        40 => Role::Blackmailer,
        41 => Role::Informant,
        42 => Role::MafiaWitch,
        43 => Role::Necromancer,
        44 => Role::Mortician,
        45 => Role::Framer,
        46 => Role::Disguiser,
        47 => Role::Forger,
        48 => Role::Reeducator,
        49 => Role::Cupid,
        50 => Role::MafiaSupportWildcard,
        51 => Role::Jester,
        52 => Role::Revolutionary,
        53 => Role::Geist,
        54 => Role::Politician,
        55 => Role::Doomsayer,
        56 => Role::Wildcard,
        57 => Role::TrueWildcard,
        58 => Role::Martyr,
        59 => Role::Witch,
        60 => Role::Scarecrow,
        61 => Role::Warper,
        62 => Role::Kidnapper,
        63 => Role::Chronokaiser,
        64 => Role::Arsonist,
        65 => Role::Werewolf,
        66 => Role::Ojo,
        67 => Role::Puppeteer,
        68 => Role::Pyrolisk,
        69 => Role::Spiral,
        70 => Role::Kira,
        71 => Role::FiendsWildcard,
        72 => Role::SerialKiller,
        73 => Role::Apostle,
        74 => Role::Disciple,
        75 => Role::Zealot,
        76 => Role::Coxswain,
        77 => Role::Porter,
        78 => Role::Polymath,
        79 => Role::Ambusher,
        80 => Role::SantaClaus,
        81 => Role::Krampus,
        82 => Role::Warden,
        83 => Role::Yer,
        84 => Role::Minion,
        85 => Role::Pathologist,
        86 => Role::Psychopomp,
        87 => Role::Seeker,
        88 => Role::Supervisor,
        89 => Role::Tavernkeep,
        90 => Role::Telepath,
        91 => Role::Vampire,
        92 => Role::Vigiloop,
        93 => Role::Wanderer,
        94 => Role::Wizard,
        95 => Role::Retrainer,
        96 => Role::Trapper,
        97 => Role::Sheriff,
        _ => Role::Sheriff,
    }
}

/// The most players that may hold a role in one game, where the role limits it.
pub open spec fn spec_maximum_count(r: Role) -> Option<u8> {
    match r {
        Role::Mortician => Some(1u8),
        Role::Necromancer => Some(1u8),
        Role::Recruiter => Some(1u8),
        Role::Reeducator => Some(1u8),
        Role::Reporter => Some(1u8),
        Role::Retrainer => Some(1u8),
        Role::Retributionist => Some(1u8),
        Role::SantaClaus => Some(1u8),
        Role::Veteran => Some(1u8),
        Role::Warden => Some(1u8),
        Role::Zealot => Some(1u8),
        _ => None,
    }
}

/// Whether `r` is one of the roles only one player may hold.
pub open spec fn limited_to_one(r: Role) -> bool {
    r == Role::Mortician || r == Role::Necromancer || r == Role::Recruiter || r == Role::Reeducator
        || r == Role::Reporter || r == Role::Retrainer || r == Role::Retributionist || r == Role::SantaClaus
        || r == Role::Veteran || r == Role::Warden || r == Role::Zealot
}

/// The roles with a limit are exactly the mortician, necromancer, recruiter,
/// reeducator, reporter, retrainer, retributionist, Santa Claus, veteran,
/// warden and zealot, each limited to one player; every other role has none.
pub proof fn lemma_maximum_counts(r: Role)
    ensures
        limited_to_one(r) ==> spec_maximum_count(r) == Some(1u8),
        !limited_to_one(r) ==> spec_maximum_count(r) is None,
{
}

impl SetItem for Role {
    fn same(&self, other: &Self) -> (r: bool) {
        *self == *other
    }
}

/// Which roles shrug off what: possession spares the tally clerk, bouncer,
/// veteran, transporter, retributionist, witch, doomsayer, scarecrow, warper,
/// geist, mafia witch, necromancer and ojo; roleblocks spare the bouncer,
/// veteran, transporter, escort, retributionist, jester, witch, scarecrow,
/// warper, geist, hypnotist, consort, mafia witch and necromancer; wards
/// spare the jailor, kidnapper, bouncer and scarecrow. No other role is immune.
pub proof fn lemma_immunities(r: Role)
    ensures
        spec_possession_immune(r) <==> (r == Role::TallyClerk || r == Role::Bouncer || r == Role::Veteran || r == Role::Transporter || r == Role::Retributionist || r == Role::Witch || r == Role::Doomsayer || r == Role::Scarecrow || r == Role::Warper || r == Role::Geist || r == Role::MafiaWitch || r == Role::Necromancer || r == Role::Ojo),
        spec_roleblock_immune(r) <==> (r == Role::Bouncer || r == Role::Veteran || r == Role::Transporter || r == Role::Escort || r == Role::Retributionist || r == Role::Jester || r == Role::Witch || r == Role::Scarecrow || r == Role::Warper || r == Role::Geist || r == Role::Hypnotist || r == Role::Consort || r == Role::MafiaWitch || r == Role::Necromancer),
        spec_wardblock_immune(r) <==> (r == Role::Jailor || r == Role::Kidnapper || r == Role::Bouncer || r == Role::Scarecrow),
{
}

impl Role {
    /// Every role, in catalogue order.
    pub fn values() -> (r: Vec<Role>)
        ensures
            r@ == all_roles(),
    {
        let mut out: Vec<Role> = Vec::new();
        let mut i: u8 = 0;
        while i < ROLE_COUNT
            invariant
                i <= ROLE_COUNT,
                out@ =~= all_roles().take(i as int),
            decreases ROLE_COUNT - i,
        {
            out.push(role_at_exec(i));
            i = i + 1;
        }
        out
    }

    /// The most players that may hold this role in one game (`None`: no limit).
    pub fn maximum_count(&self) -> (r: Option<u8>)
        ensures
            r == spec_maximum_count(*self),
    {
        match self {
            Role::Mortician => Some(1),
            Role::Necromancer => Some(1),
            Role::Recruiter => Some(1),
            Role::Reeducator => Some(1),
            Role::Reporter => Some(1),
            Role::Retrainer => Some(1),
            Role::Retributionist => Some(1),
            Role::SantaClaus => Some(1),
            Role::Veteran => Some(1),
            Role::Warden => Some(1),
            Role::Zealot => Some(1),
            _ => None,
        }
    }

    pub fn possession_immune(&self) -> (r: bool)
        ensures
            r == spec_possession_immune(*self),
    {
        match self {
            Role::TallyClerk | Role::Bouncer | Role::Veteran | Role::Transporter | Role::Retributionist | Role::Witch | Role::Doomsayer | Role::Scarecrow | Role::Warper | Role::Geist | Role::MafiaWitch | Role::Necromancer | Role::Ojo => true,
            _ => false,
        }
    }

    pub fn roleblock_immune(&self) -> (r: bool)
        ensures
            r == spec_roleblock_immune(*self),
    {
        match self {
            Role::Bouncer | Role::Veteran | Role::Transporter | Role::Escort | Role::Retributionist | Role::Jester | Role::Witch | Role::Scarecrow | Role::Warper | Role::Geist | Role::Hypnotist | Role::Consort | Role::MafiaWitch | Role::Necromancer => true,
            _ => false,
        }
    }

    pub fn wardblock_immune(&self) -> (r: bool)
        ensures
            r == spec_wardblock_immune(*self),
    {
        match self {
            Role::Jailor | Role::Kidnapper | Role::Bouncer | Role::Scarecrow => true,
            _ => false,
        }
    }
}

/// The roles for which `Role::possession_immune` holds.
pub open spec fn spec_possession_immune(r: Role) -> bool {
    match r {
        Role::TallyClerk | Role::Bouncer | Role::Veteran | Role::Transporter | Role::Retributionist | Role::Witch | Role::Doomsayer | Role::Scarecrow | Role::Warper | Role::Geist | Role::MafiaWitch | Role::Necromancer | Role::Ojo => true,
        _ => false,
    }
}

/// The roles for which `Role::roleblock_immune` holds.
pub open spec fn spec_roleblock_immune(r: Role) -> bool {
    match r {
        Role::Bouncer | Role::Veteran | Role::Transporter | Role::Escort | Role::Retributionist | Role::Jester | Role::Witch | Role::Scarecrow | Role::Warper | Role::Geist | Role::Hypnotist | Role::Consort | Role::MafiaWitch | Role::Necromancer => true,
        _ => false,
    }
}

/// The roles for which `Role::wardblock_immune` holds.
pub open spec fn spec_wardblock_immune(r: Role) -> bool {
    match r {
        Role::Jailor | Role::Kidnapper | Role::Bouncer | Role::Scarecrow => true,
        _ => false,
    }
}


impl Role {
    /// Whether the role reads as innocent to investigations: always for the
    /// godfather, on the first day for the pyrolisk, and on the first and
    /// third days for the werewolf.
    pub fn has_innocent_aura(&self, game: &Game) -> (r: bool)
        ensures
            r == spec_has_innocent_aura(*self, game.day_number),
    {
        match self {
            Role::Godfather => true,
            Role::Pyrolisk => game.day_number() == 1,
            Role::Werewolf => game.day_number() == 1 || game.day_number() == 3,
            _ => false,
        }
    }

    /// No role reads as suspicious by itself.
    pub fn has_suspicious_aura(&self, game: &Game) -> (r: bool)
        ensures
            !r,
    {
        false
    }
}

pub open spec fn spec_has_innocent_aura(r: Role, day: u8) -> bool {
    match r {
        Role::Godfather => true,
        Role::Pyrolisk => day == 1,
        Role::Werewolf => day == 1 || day == 3,
        _ => false,
    }
}

/// Roles with an innocent aura: the godfather always, the pyrolisk on the
/// first day, the werewolf on the first and third days; no other role.
pub proof fn lemma_innocent_auras(r: Role, day: u8)
    ensures
        spec_has_innocent_aura(r, day) <==> (r == Role::Godfather || (r == Role::Pyrolisk && day == 1) || (r
            == Role::Werewolf && (day == 1 || day == 3))),
{
}

/// The steps of a night, in the order the engine runs them.
#[derive(Clone, Copy, PartialEq, Eq, Structural, Debug)]
pub enum Priority {
    TopPriority,
    Ward,
    Transporter,
    Warper,
    Geist,
    Possess,
    Roleblock,
    Deception,
    Bodyguard,
    Heal,
    Kill,
    Convert,
    Poison,
    Investigative,
    Cupid,
    SpyBug,
    StealMessages,
}

impl Priority {
    /// Every step, in order.
    pub fn values() -> (r: Vec<Priority>)
        ensures
            r@ == seq![
                Priority::TopPriority, Priority::Ward, Priority::Transporter, Priority::Warper,
                Priority::Geist, Priority::Possess, Priority::Roleblock, Priority::Deception,
                Priority::Bodyguard, Priority::Heal, Priority::Kill, Priority::Convert,
                Priority::Poison, Priority::Investigative, Priority::Cupid, Priority::SpyBug,
                Priority::StealMessages,
            ],
    {
        vec![
            Priority::TopPriority, Priority::Ward, Priority::Transporter, Priority::Warper,
            Priority::Geist, Priority::Possess, Priority::Roleblock, Priority::Deception,
            Priority::Bodyguard, Priority::Heal, Priority::Kill, Priority::Convert,
            Priority::Poison, Priority::Investigative, Priority::Cupid, Priority::SpyBug,
            Priority::StealMessages,
        ]
    }
}

/// The steps of a midnight, as the newer roles name them.
#[derive(Clone, Copy, PartialEq, Eq, Structural, Debug)]
pub enum OnMidnightPriority {
    TopPriority,
    Ward,
    Transporter,
    Warper,
    Possess,
    Roleblock,
    Deception,
    Confuse,
    ConfusePossessors,
    Bodyguard,
    Heal,
    Kill,
    Convert,
    Poison,
    Investigative,
    Cupid,
    SpyBug,
    StealMessages,
    DeleteMessages,
    FinalizeNight,
}

/// What a role shows its own player's client.
pub trait GetClientRoleState<CRS> {
    fn get_client_role_state(self, game: &Game, actor_ref: PlayerReference) -> CRS;
}

} // verus!

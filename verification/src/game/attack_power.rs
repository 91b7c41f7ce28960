//! Strengths of attacks and of defenses.

use vstd::prelude::*;

verus! {

#[derive(Clone, Copy, PartialEq, Eq, Structural, Debug, Hash)]
pub enum AttackPower {
    Basic,
    ArmorPiercing,
    ProtectionPiercing,
}

#[derive(Clone, Copy, PartialEq, Eq, Structural, Debug, Hash)]
pub enum DefensePower {
    NoDefense,
    Armored,
    Protected,
    Invincible,
}

/// Whether an attack of `attack` gets through a defense of `defense`: each
/// power gets through the defenses below it, and nothing gets through an
/// invincible defense.
pub open spec fn pierces(attack: AttackPower, defense: DefensePower) -> bool {
    attack_rank(attack) > defense_rank(defense)
}

pub open spec fn attack_rank(a: AttackPower) -> int {
    match a {
        AttackPower::Basic => 1,
        AttackPower::ArmorPiercing => 2,
        AttackPower::ProtectionPiercing => 3,
    }
}

pub open spec fn defense_rank(d: DefensePower) -> int {
    match d {
        DefensePower::NoDefense => 0,
        DefensePower::Armored => 1,
        DefensePower::Protected => 2,
        DefensePower::Invincible => 3,
    }
}

impl AttackPower {
    pub fn can_pierce(self, defense: DefensePower) -> (r: bool)
        ensures
            r == pierces(self, defense),
    {
        let a: u8 = match self {
            AttackPower::Basic => 1,
            AttackPower::ArmorPiercing => 2,
            AttackPower::ProtectionPiercing => 3,
        };
        let d: u8 = match defense {
            DefensePower::NoDefense => 0,
            DefensePower::Armored => 1,
            DefensePower::Protected => 2,
            DefensePower::Invincible => 3,
        };
        a > d
    }
}

} // verus!

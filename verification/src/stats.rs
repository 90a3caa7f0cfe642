//! The stat vocabulary shared by items and the character sheet.
//!
//! Values attached to a stat (flat points or 0..1 fractions) are
//! magnitudes carried alongside the stat; this module only owns the
//! closed set of stat kinds and their classification.

use vstd::prelude::*;

verus! {

/// Every stat that can appear on an item or character sheet.
#[derive(Clone, Copy, Debug, PartialEq, Eq, Hash, Structural)]
pub enum Stat {
    // Attributes — flat points folded into the attribute block.
    Strength,
    Agility,
    Intellect,
    // Offensive
    CritChance,
    CritDamage,
    AttackSpeed,
    // Defensive
    Health,
    Armor,
    Evasion,
    HealthRegen,
    ElementalResist,
    HealingReceived,
    MaxResource,
    // Utility
    CooldownReduction,
    ResourceRegen,
    MoveSpeed,
    Range,
    // Elemental scaling
    PhysicalDamage,
    FireDamage,
    IceDamage,
    LightningDamage,
    // Archetype scaling
    ProjectileDamage,
    MeleeDamage,
}

impl Stat {
    /// Display name of each stat.
    pub open spec fn spec_name(self) -> &'static str {
        match self {
            Stat::Strength => "Strength",
            Stat::Agility => "Agility",
            Stat::Intellect => "Intellect",
            Stat::CritChance => "Crit Chance",
            Stat::CritDamage => "Crit Damage",
            Stat::AttackSpeed => "Attack Speed",
            Stat::Health => "Health",
            Stat::Armor => "Armor",
            Stat::Evasion => "Evasion",
            Stat::HealthRegen => "Health Regen",
            Stat::ElementalResist => "Elemental Resist",
            Stat::HealingReceived => "Healing Received",
            Stat::MaxResource => "Max Essence",
            Stat::CooldownReduction => "Cooldown Reduction",
            Stat::ResourceRegen => "Essence Regen",
            Stat::MoveSpeed => "Move Speed",
            Stat::Range => "Range",
            Stat::PhysicalDamage => "Physical Damage",
            Stat::FireDamage => "Fire Damage",
            Stat::IceDamage => "Ice Damage",
            Stat::LightningDamage => "Lightning Damage",
            Stat::ProjectileDamage => "Projectile Damage",
            Stat::MeleeDamage => "Melee Damage",
        }
    }

    /// Display name (singular, capitalised).
    pub fn name(self) -> (r: &'static str)
        ensures
            r == self.spec_name(),
    {
        match self {
            Stat::Strength => "Strength",
            Stat::Agility => "Agility",
            Stat::Intellect => "Intellect",
            Stat::CritChance => "Crit Chance",
            Stat::CritDamage => "Crit Damage",
            Stat::AttackSpeed => "Attack Speed",
            Stat::Health => "Health",
            Stat::Armor => "Armor",
            Stat::Evasion => "Evasion",
            Stat::HealthRegen => "Health Regen",
            Stat::ElementalResist => "Elemental Resist",
            Stat::HealingReceived => "Healing Received",
            Stat::MaxResource => "Max Essence",
            Stat::CooldownReduction => "Cooldown Reduction",
            Stat::ResourceRegen => "Essence Regen",
            Stat::MoveSpeed => "Move Speed",
            Stat::Range => "Range",
            Stat::PhysicalDamage => "Physical Damage",
            Stat::FireDamage => "Fire Damage",
            Stat::IceDamage => "Ice Damage",
            Stat::LightningDamage => "Lightning Damage",
            Stat::ProjectileDamage => "Projectile Damage",
            Stat::MeleeDamage => "Melee Damage",
        }
    }

    /// The stats naturally expressed as a 0..1 fraction (displayed as
    /// `+12 %`); every other stat is a flat scalar.
    pub open spec fn spec_is_percent(self) -> bool {
        match self {
            Stat::CritChance | Stat::CritDamage | Stat::AttackSpeed | Stat::CooldownReduction
            | Stat::ResourceRegen | Stat::MoveSpeed | Stat::Range | Stat::Evasion
            | Stat::ElementalResist | Stat::HealingReceived | Stat::PhysicalDamage
            | Stat::FireDamage | Stat::IceDamage | Stat::LightningDamage | Stat::ProjectileDamage
            | Stat::MeleeDamage => true,
            _ => false,
        }
    }

    /// `true` if this stat is naturally expressed as a percentage.
    pub fn is_percent(self) -> (r: bool)
        ensures
            r == self.spec_is_percent(),
    {
        match self {
            Stat::CritChance | Stat::CritDamage | Stat::AttackSpeed | Stat::CooldownReduction
            | Stat::ResourceRegen | Stat::MoveSpeed | Stat::Range | Stat::Evasion
            | Stat::ElementalResist | Stat::HealingReceived | Stat::PhysicalDamage
            | Stat::FireDamage | Stat::IceDamage | Stat::LightningDamage | Stat::ProjectileDamage
            | Stat::MeleeDamage => true,
            _ => false,
        }
    }

    /// The offensive bonus group: crit chance, crit damage, attack speed.
    pub open spec fn spec_is_offensive_bonus(self) -> bool {
        self == Stat::CritChance || self == Stat::CritDamage || self == Stat::AttackSpeed
    }

    /// `true` if this stat belongs to the offensive bonus group (the
    /// only bonus stats a weapon rolls, and one reroll lane).
    pub fn is_offensive_bonus(self) -> (r: bool)
        ensures
            r == self.spec_is_offensive_bonus(),
    {
        match self {
            Stat::CritChance | Stat::CritDamage | Stat::AttackSpeed => true,
            _ => false,
        }
    }
}

} // verus!

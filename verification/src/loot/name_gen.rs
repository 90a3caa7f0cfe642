//! Procedural item names: "{adjective} {base} {suffix}", where the
//! adjective comes from the best-rolled axis line and the suffix from
//! the best-rolled bonus line.

use vstd::prelude::*;

use crate::stats::Stat;
use super::affixes::{AffixDef, AffixEffect};

verus! {

/// The fronting word of an axis line's stat.
pub open spec fn spec_adjective_for(def: AffixDef) -> Option<&'static str> {
    match def.effect {
        AffixEffect::Stat(Stat::PhysicalDamage) => Some("Forged"),
        AffixEffect::Stat(Stat::FireDamage) => Some("Molten"),
        AffixEffect::Stat(Stat::IceDamage) => Some("Frozen"),
        AffixEffect::Stat(Stat::LightningDamage) => Some("Charged"),
        AffixEffect::Stat(Stat::Strength) => Some("Titanbound"),
        AffixEffect::Stat(Stat::Agility) => Some("Veilrunner's"),
        AffixEffect::Stat(Stat::Intellect) => Some("Voidseer's"),
        _ => None,
    }
}

/// Adjective for an axis affix; `None` for shapes without one.
pub fn adjective_for(def: &AffixDef) -> (r: Option<&'static str>)
    ensures
        r == spec_adjective_for(*def),
{
    match def.effect {
        AffixEffect::Stat(Stat::PhysicalDamage) => Some("Forged"),
        AffixEffect::Stat(Stat::FireDamage) => Some("Molten"),
        AffixEffect::Stat(Stat::IceDamage) => Some("Frozen"),
        AffixEffect::Stat(Stat::LightningDamage) => Some("Charged"),
        AffixEffect::Stat(Stat::Strength) => Some("Titanbound"),
        AffixEffect::Stat(Stat::Agility) => Some("Veilrunner's"),
        AffixEffect::Stat(Stat::Intellect) => Some("Voidseer's"),
        _ => None,
    }
}

/// The trailing phrase of a bonus line.
pub open spec fn spec_suffix_for(def: AffixDef) -> Option<&'static str> {
    match def.effect {
        AffixEffect::Stat(stat) => match stat {
            Stat::CritChance => Some("of Execution"),
            Stat::CritDamage => Some("of Annihilation"),
            Stat::AttackSpeed => Some("of the Riftwind"),
            Stat::Health => Some("of Undeath"),
            Stat::HealthRegen => Some("of the Ouroboros"),
            Stat::Armor => Some("of the Unbroken"),
            Stat::Evasion => Some("of Shadows"),
            Stat::ElementalResist => Some("of the Veil"),
            Stat::HealingReceived => Some("of Communion"),
            Stat::MaxResource => Some("of the Maelstrom"),
            Stat::CooldownReduction => Some("of the Hourglass"),
            Stat::ResourceRegen => Some("of the Tide"),
            Stat::MoveSpeed => Some("of the Wraith"),
            Stat::Range => Some("of the Horizon"),
            _ => None,
        },
        AffixEffect::AmplifyAbilityDamage(_) => Some("of Ruination"),
        AffixEffect::ReduceAbilityCooldown(_) => Some("of Echoing Time"),
        AffixEffect::ExtraProjectiles(_) => Some("of Prism"),
        AffixEffect::Proc(_, _) => Some("of Resonance"),
        AffixEffect::TransformAbility(_, _) => None,
    }
}

/// Suffix phrase for a bonus affix; `None` for axis stats and
/// transforms.
pub fn suffix_for(def: &AffixDef) -> (r: Option<&'static str>)
    ensures
        r == spec_suffix_for(*def),
{
    match def.effect {
        AffixEffect::Stat(stat) => match stat {
            Stat::CritChance => Some("of Execution"),
            Stat::CritDamage => Some("of Annihilation"),
            Stat::AttackSpeed => Some("of the Riftwind"),
            Stat::Health => Some("of Undeath"),
            Stat::HealthRegen => Some("of the Ouroboros"),
            Stat::Armor => Some("of the Unbroken"),
            Stat::Evasion => Some("of Shadows"),
            Stat::ElementalResist => Some("of the Veil"),
            Stat::HealingReceived => Some("of Communion"),
            Stat::MaxResource => Some("of the Maelstrom"),
            Stat::CooldownReduction => Some("of the Hourglass"),
            Stat::ResourceRegen => Some("of the Tide"),
            Stat::MoveSpeed => Some("of the Wraith"),
            Stat::Range => Some("of the Horizon"),
            _ => None,
        },
        AffixEffect::AmplifyAbilityDamage(_) => Some("of Ruination"),
        AffixEffect::ReduceAbilityCooldown(_) => Some("of Echoing Time"),
        AffixEffect::ExtraProjectiles(_) => Some("of Prism"),
        AffixEffect::Proc(_, _) => Some("of Resonance"),
        AffixEffect::TransformAbility(_, _) => None,
    }
}

} // verus!

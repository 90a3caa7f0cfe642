//! Affix definitions, effect taxonomy, and the affix pools.
//!
//! An affix either adds a stat or interacts with an ability: it can
//! amplify its damage, reduce its cooldown, add projectiles, transform
//! it, or trigger a proc. Gameplay-changing effects are gated behind
//! Legendary rarity through each affix's `rarity_min`.
//!
//! Roll ranges and per-item-level scaling are written in thousandths
//! of the affix's unit (`40` is `0.04`, `4000` is `4.0`).

use vstd::prelude::*;

use crate::abilities::AbilityId;
use crate::stats::Stat;
use crate::text::starts_with;
use super::families;
use super::items::EquipSlot;
use super::items::tag::{ALL, CASTER, CRIT, DEFENSE, FIRE, ICE, LIGHTNING, MELEE, SPEED, UTILITY};
use super::rarity::Rarity;
use super::rng::LootRng;

verus! {

/// What an affix actually does.
#[derive(Clone, Copy, Debug)]
pub enum AffixEffect {
    /// Plain stat line.
    Stat(Stat),
    /// Multiply a specific ability's damage by `1 + value`.
    AmplifyAbilityDamage(AbilityId),
    /// Multiply a specific ability's cooldown by `1 - value`.
    ReduceAbilityCooldown(AbilityId),
    /// Add `value` extra projectiles to a projectile ability.
    ExtraProjectiles(AbilityId),
    /// Replace the ability's behaviour with the named variant.
    TransformAbility(AbilityId, AbilityVariant),
    /// When `event` fires, invoke `action`; the rolled value is the chance.
    Proc(ProcEvent, ProcAction),
}

/// Discrete behavioural reskins of an ability.
#[derive(Clone, Copy, Debug, PartialEq, Eq, Structural)]
pub enum AbilityVariant {
    /// Fireball morphs from a projectile into a piercing beam.
    FireballToBeam,
    /// Frost Ray detonates at its terminal point into shards.
    FrostRayShatter,
    /// Whirlwind pulls enemies inward each tick.
    WhirlwindVortex,
}

/// Game events that can trigger a proc affix.
#[derive(Clone, Copy, Debug, PartialEq, Eq, Structural)]
pub enum ProcEvent {
    OnCrit,
    OnHit,
    OnKill,
    OnDodge,
    /// Below 30 % HP.
    OnLowHealth,
}

/// What a proc does.
#[derive(Clone, Copy, Debug)]
pub enum ProcAction {
    /// Cast `ability` for free, ignoring cooldown and resource cost.
    CastAbility(AbilityId),
    /// One-shot AoE explosion; radius and damage in thousandths.
    Explosion { radius: u32, damage: u32 },
}

/// One affix the loot system can roll.
#[derive(Clone, Copy, Debug)]
pub struct AffixDef {
    pub id: &'static str,
    /// Tooltip template — `{}` is replaced by the formatted value.
    pub name_template: &'static str,
    pub effect: AffixEffect,
    /// Roll range at item-level 1, in thousandths.
    pub roll: (u32, u32),
    /// Linear scaling per item-level above 1, in thousandths.
    pub ilvl_scale: u32,
    /// Bitmask filtered against the base's `allowed_tags`.
    pub tags: u32,
    /// Affix doesn't appear below this item-level.
    pub min_ilvl: u32,
    /// Affix doesn't appear below this rarity tier.
    pub rarity_min: Rarity,
    /// Base selection weight before the favoured-tag bonus.
    pub weight: u32,
}

/// The main affix pool: attribute, element and bonus lines plus the
/// legendary effects.
pub open spec fn spec_affix_pool() -> Seq<AffixDef> {
    seq![
        AffixDef {
            id: "flat_strength",
            name_template: "{} Strength",
            effect: AffixEffect::Stat(Stat::Strength),
            roll: (4000, 8000),
            ilvl_scale: 600,
            tags: ALL,
            min_ilvl: 1,
            rarity_min: Rarity::Common,
            weight: 1,
        },
        AffixDef {
            id: "flat_agility",
            name_template: "{} Agility",
            effect: AffixEffect::Stat(Stat::Agility),
            roll: (4000, 8000),
            ilvl_scale: 600,
            tags: ALL,
            min_ilvl: 1,
            rarity_min: Rarity::Common,
            weight: 1,
        },
        AffixDef {
            id: "flat_intellect",
            name_template: "{} Intellect",
            effect: AffixEffect::Stat(Stat::Intellect),
            roll: (4000, 8000),
            ilvl_scale: 600,
            tags: ALL,
            min_ilvl: 1,
            rarity_min: Rarity::Common,
            weight: 1,
        },
        AffixDef {
            id: "flat_health",
            name_template: "{} Health",
            effect: AffixEffect::Stat(Stat::Health),
            roll: (10000, 25000),
            ilvl_scale: 4000,
            tags: DEFENSE | UTILITY,
            min_ilvl: 1,
            rarity_min: Rarity::Common,
            weight: 100,
        },
        AffixDef {
            id: "flat_armor",
            name_template: "{} Armor",
            effect: AffixEffect::Stat(Stat::Armor),
            roll: (4000, 9000),
            ilvl_scale: 2000,
            tags: DEFENSE | MELEE,
            min_ilvl: 1,
            rarity_min: Rarity::Common,
            weight: 80,
        },
        AffixDef {
            id: "pct_attack_speed",
            name_template: "{} Attack Speed",
            effect: AffixEffect::Stat(Stat::AttackSpeed),
            roll: (40, 80),
            ilvl_scale: 3,
            tags: SPEED | MELEE | CASTER,
            min_ilvl: 1,
            rarity_min: Rarity::Common,
            weight: 60,
        },
        AffixDef {
            id: "pct_move_speed",
            name_template: "{} Move Speed",
            effect: AffixEffect::Stat(Stat::MoveSpeed),
            roll: (30, 70),
            ilvl_scale: 1,
            tags: SPEED | UTILITY,
            min_ilvl: 1,
            rarity_min: Rarity::Common,
            weight: 50,
        },
        AffixDef {
            id: "pct_evasion",
            name_template: "{} Evasion",
            effect: AffixEffect::Stat(Stat::Evasion),
            roll: (30, 70),
            ilvl_scale: 2,
            tags: SPEED | DEFENSE,
            min_ilvl: 1,
            rarity_min: Rarity::Common,
            weight: 50,
        },
        AffixDef {
            id: "pct_resource_regen",
            name_template: "{} Essence Regen",
            effect: AffixEffect::Stat(Stat::ResourceRegen),
            roll: (50, 120),
            ilvl_scale: 4,
            tags: UTILITY | CASTER,
            min_ilvl: 1,
            rarity_min: Rarity::Common,
            weight: 50,
        },
        AffixDef {
            id: "flat_health_regen",
            name_template: "{} Health Regen",
            effect: AffixEffect::Stat(Stat::HealthRegen),
            roll: (1000, 3000),
            ilvl_scale: 400,
            tags: DEFENSE | UTILITY,
            min_ilvl: 1,
            rarity_min: Rarity::Common,
            weight: 50,
        },
        AffixDef {
            id: "pct_elemental_resist",
            name_template: "{} Elemental Resist",
            effect: AffixEffect::Stat(Stat::ElementalResist),
            roll: (30, 60),
            ilvl_scale: 2,
            tags: DEFENSE | CASTER,
            min_ilvl: 3,
            rarity_min: Rarity::Magic,
            weight: 45,
        },
        AffixDef {
            id: "pct_healing_received",
            name_template: "{} Healing Received",
            effect: AffixEffect::Stat(Stat::HealingReceived),
            roll: (50, 120),
            ilvl_scale: 3,
            tags: DEFENSE | UTILITY,
            min_ilvl: 5,
            rarity_min: Rarity::Magic,
            weight: 35,
        },
        AffixDef {
            id: "pct_crit_chance",
            name_template: "{} Crit Chance",
            effect: AffixEffect::Stat(Stat::CritChance),
            roll: (20, 50),
            ilvl_scale: 2,
            tags: CRIT,
            min_ilvl: 1,
            rarity_min: Rarity::Magic,
            weight: 60,
        },
        AffixDef {
            id: "pct_crit_damage",
            name_template: "{} Crit Damage",
            effect: AffixEffect::Stat(Stat::CritDamage),
            roll: (100, 250),
            ilvl_scale: 10,
            tags: CRIT,
            min_ilvl: 5,
            rarity_min: Rarity::Magic,
            weight: 50,
        },
        AffixDef {
            id: "pct_cooldown",
            name_template: "{} Cooldown Reduction",
            effect: AffixEffect::Stat(Stat::CooldownReduction),
            roll: (30, 60),
            ilvl_scale: 2,
            tags: UTILITY | CASTER,
            min_ilvl: 5,
            rarity_min: Rarity::Magic,
            weight: 50,
        },
        AffixDef {
            id: "pct_fire_damage",
            name_template: "{} Fire Damage",
            effect: AffixEffect::Stat(Stat::FireDamage),
            roll: (60, 140),
            ilvl_scale: 5,
            tags: FIRE | CASTER,
            min_ilvl: 1,
            rarity_min: Rarity::Magic,
            weight: 70,
        },
        AffixDef {
            id: "pct_ice_damage",
            name_template: "{} Ice Damage",
            effect: AffixEffect::Stat(Stat::IceDamage),
            roll: (60, 140),
            ilvl_scale: 5,
            tags: ICE | CASTER,
            min_ilvl: 1,
            rarity_min: Rarity::Magic,
            weight: 70,
        },
        AffixDef {
            id: "pct_lightning_damage",
            name_template: "{} Lightning Damage",
            effect: AffixEffect::Stat(Stat::LightningDamage),
            roll: (60, 140),
            ilvl_scale: 5,
            tags: LIGHTNING | CASTER,
            min_ilvl: 1,
            rarity_min: Rarity::Magic,
            weight: 70,
        },
        AffixDef {
            id: "amp_frost_ray_dmg",
            name_template: "Frost Ray damage {}",
            effect: AffixEffect::AmplifyAbilityDamage(AbilityId("frost_ray")),
            roll: (100, 200),
            ilvl_scale: 5,
            tags: ICE | CASTER,
            min_ilvl: 5,
            rarity_min: Rarity::Rare,
            weight: 30,
        },
        AffixDef {
            id: "amp_whirlwind_dmg",
            name_template: "Whirlwind damage {}",
            effect: AffixEffect::AmplifyAbilityDamage(AbilityId("whirlwind")),
            roll: (100, 200),
            ilvl_scale: 5,
            tags: MELEE,
            min_ilvl: 5,
            rarity_min: Rarity::Rare,
            weight: 30,
        },
        AffixDef {
            id: "cdr_frost_ray",
            name_template: "Frost Ray cooldown {}",
            effect: AffixEffect::ReduceAbilityCooldown(AbilityId("frost_ray")),
            roll: (50, 120),
            ilvl_scale: 3,
            tags: ICE | CASTER | UTILITY,
            min_ilvl: 5,
            rarity_min: Rarity::Rare,
            weight: 25,
        },
        AffixDef {
            id: "cdr_evasive_roll",
            name_template: "Evasive Roll cooldown {}",
            effect: AffixEffect::ReduceAbilityCooldown(AbilityId("evasive_roll")),
            roll: (50, 120),
            ilvl_scale: 3,
            tags: SPEED | UTILITY,
            min_ilvl: 5,
            rarity_min: Rarity::Rare,
            weight: 25,
        },
        AffixDef {
            id: "mod_fire_ball_extra_proj",
            name_template: "Fireball fires {} extra projectiles",
            effect: AffixEffect::ExtraProjectiles(AbilityId("fire_ball")),
            roll: (1000, 1000),
            ilvl_scale: 0,
            tags: SPEED,
            min_ilvl: 15,
            rarity_min: Rarity::Legendary,
            weight: 10,
        },
        AffixDef {
            id: "transform_frost_ray_shatter",
            name_template: "Frost Ray detonates into shards",
            effect: AffixEffect::TransformAbility(AbilityId("frost_ray"), AbilityVariant::FrostRayShatter),
            roll: (0, 0),
            ilvl_scale: 0,
            tags: ICE | CASTER,
            min_ilvl: 15,
            rarity_min: Rarity::Legendary,
            weight: 8,
        },
        AffixDef {
            id: "pct_physical_damage",
            name_template: "{} Physical Damage",
            effect: AffixEffect::Stat(Stat::PhysicalDamage),
            roll: (60, 140),
            ilvl_scale: 5,
            tags: ALL,
            min_ilvl: 1,
            rarity_min: Rarity::Common,
            weight: 0,
        },
        AffixDef {
            id: "pct_projectile_damage",
            name_template: "{} Projectile Damage",
            effect: AffixEffect::Stat(Stat::ProjectileDamage),
            roll: (60, 140),
            ilvl_scale: 5,
            tags: ALL,
            min_ilvl: 1,
            rarity_min: Rarity::Common,
            weight: 0,
        },
        AffixDef {
            id: "pct_melee_damage",
            name_template: "{} Melee Damage",
            effect: AffixEffect::Stat(Stat::MeleeDamage),
            roll: (60, 140),
            ilvl_scale: 5,
            tags: ALL,
            min_ilvl: 1,
            rarity_min: Rarity::Common,
            weight: 0,
        },
    ]
}

/// The main affix pool: attribute, element and bonus lines plus the
/// legendary effects.
pub fn affix_pool() -> (r: &'static [AffixDef])
    ensures
        r@ == spec_affix_pool(),
{
    let r: &'static [AffixDef] = &[
        AffixDef {
            id: "flat_strength",
            name_template: "{} Strength",
            effect: AffixEffect::Stat(Stat::Strength),
            roll: (4000, 8000),
            ilvl_scale: 600,
            tags: ALL,
            min_ilvl: 1,
            rarity_min: Rarity::Common,
            weight: 1,
        },
        AffixDef {
            id: "flat_agility",
            name_template: "{} Agility",
            effect: AffixEffect::Stat(Stat::Agility),
            roll: (4000, 8000),
            ilvl_scale: 600,
            tags: ALL,
            min_ilvl: 1,
            rarity_min: Rarity::Common,
            weight: 1,
        },
        AffixDef {
            id: "flat_intellect",
            name_template: "{} Intellect",
            effect: AffixEffect::Stat(Stat::Intellect),
            roll: (4000, 8000),
            ilvl_scale: 600,
            tags: ALL,
            min_ilvl: 1,
            rarity_min: Rarity::Common,
            weight: 1,
        },
        AffixDef {
            id: "flat_health",
            name_template: "{} Health",
            effect: AffixEffect::Stat(Stat::Health),
            roll: (10000, 25000),
            ilvl_scale: 4000,
            tags: DEFENSE | UTILITY,
            min_ilvl: 1,
            rarity_min: Rarity::Common,
            weight: 100,
        },
        AffixDef {
            id: "flat_armor",
            name_template: "{} Armor",
            effect: AffixEffect::Stat(Stat::Armor),
            roll: (4000, 9000),
            ilvl_scale: 2000,
            tags: DEFENSE | MELEE,
            min_ilvl: 1,
            rarity_min: Rarity::Common,
            weight: 80,
        },
        AffixDef {
            id: "pct_attack_speed",
            name_template: "{} Attack Speed",
            effect: AffixEffect::Stat(Stat::AttackSpeed),
            roll: (40, 80),
            ilvl_scale: 3,
            tags: SPEED | MELEE | CASTER,
            min_ilvl: 1,
            rarity_min: Rarity::Common,
            weight: 60,
        },
        AffixDef {
            id: "pct_move_speed",
            name_template: "{} Move Speed",
            effect: AffixEffect::Stat(Stat::MoveSpeed),
            roll: (30, 70),
            ilvl_scale: 1,
            tags: SPEED | UTILITY,
            min_ilvl: 1,
            rarity_min: Rarity::Common,
            weight: 50,
        },
        AffixDef {
            id: "pct_evasion",
            name_template: "{} Evasion",
            effect: AffixEffect::Stat(Stat::Evasion),
            roll: (30, 70),
            ilvl_scale: 2,
            tags: SPEED | DEFENSE,
            min_ilvl: 1,
            rarity_min: Rarity::Common,
            weight: 50,
        },
        AffixDef {
            id: "pct_resource_regen",
            name_template: "{} Essence Regen",
            effect: AffixEffect::Stat(Stat::ResourceRegen),
            roll: (50, 120),
            ilvl_scale: 4,
            tags: UTILITY | CASTER,
            min_ilvl: 1,
            rarity_min: Rarity::Common,
            weight: 50,
        },
        AffixDef {
            id: "flat_health_regen",
            name_template: "{} Health Regen",
            effect: AffixEffect::Stat(Stat::HealthRegen),
            roll: (1000, 3000),
            ilvl_scale: 400,
            tags: DEFENSE | UTILITY,
            min_ilvl: 1,
            rarity_min: Rarity::Common,
            weight: 50,
        },
        AffixDef {
            id: "pct_elemental_resist",
            name_template: "{} Elemental Resist",
            effect: AffixEffect::Stat(Stat::ElementalResist),
            roll: (30, 60),
            ilvl_scale: 2,
            tags: DEFENSE | CASTER,
            min_ilvl: 3,
            rarity_min: Rarity::Magic,
            weight: 45,
        },
        AffixDef {
            id: "pct_healing_received",
            name_template: "{} Healing Received",
            effect: AffixEffect::Stat(Stat::HealingReceived),
            roll: (50, 120),
            ilvl_scale: 3,
            tags: DEFENSE | UTILITY,
            min_ilvl: 5,
            rarity_min: Rarity::Magic,
            weight: 35,
        },
        AffixDef {
            id: "pct_crit_chance",
            name_template: "{} Crit Chance",
            effect: AffixEffect::Stat(Stat::CritChance),
            roll: (20, 50),
            ilvl_scale: 2,
            tags: CRIT,
            min_ilvl: 1,
            rarity_min: Rarity::Magic,
            weight: 60,
        },
        AffixDef {
            id: "pct_crit_damage",
            name_template: "{} Crit Damage",
            effect: AffixEffect::Stat(Stat::CritDamage),
            roll: (100, 250),
            ilvl_scale: 10,
            tags: CRIT,
            min_ilvl: 5,
            rarity_min: Rarity::Magic,
            weight: 50,
        },
        AffixDef {
            id: "pct_cooldown",
            name_template: "{} Cooldown Reduction",
            effect: AffixEffect::Stat(Stat::CooldownReduction),
            roll: (30, 60),
            ilvl_scale: 2,
            tags: UTILITY | CASTER,
            min_ilvl: 5,
            rarity_min: Rarity::Magic,
            weight: 50,
        },
        AffixDef {
            id: "pct_fire_damage",
            name_template: "{} Fire Damage",
            effect: AffixEffect::Stat(Stat::FireDamage),
            roll: (60, 140),
            ilvl_scale: 5,
            tags: FIRE | CASTER,
            min_ilvl: 1,
            rarity_min: Rarity::Magic,
            weight: 70,
        },
        AffixDef {
            id: "pct_ice_damage",
            name_template: "{} Ice Damage",
            effect: AffixEffect::Stat(Stat::IceDamage),
            roll: (60, 140),
            ilvl_scale: 5,
            tags: ICE | CASTER,
            min_ilvl: 1,
            rarity_min: Rarity::Magic,
            weight: 70,
        },
        AffixDef {
            id: "pct_lightning_damage",
            name_template: "{} Lightning Damage",
            effect: AffixEffect::Stat(Stat::LightningDamage),
            roll: (60, 140),
            ilvl_scale: 5,
            tags: LIGHTNING | CASTER,
            min_ilvl: 1,
            rarity_min: Rarity::Magic,
            weight: 70,
        },
        AffixDef {
            id: "amp_frost_ray_dmg",
            name_template: "Frost Ray damage {}",
            effect: AffixEffect::AmplifyAbilityDamage(AbilityId("frost_ray")),
            roll: (100, 200),
            ilvl_scale: 5,
            tags: ICE | CASTER,
            min_ilvl: 5,
            rarity_min: Rarity::Rare,
            weight: 30,
        },
        AffixDef {
            id: "amp_whirlwind_dmg",
            name_template: "Whirlwind damage {}",
            effect: AffixEffect::AmplifyAbilityDamage(AbilityId("whirlwind")),
            roll: (100, 200),
            ilvl_scale: 5,
            tags: MELEE,
            min_ilvl: 5,
            rarity_min: Rarity::Rare,
            weight: 30,
        },
        AffixDef {
            id: "cdr_frost_ray",
            name_template: "Frost Ray cooldown {}",
            effect: AffixEffect::ReduceAbilityCooldown(AbilityId("frost_ray")),
            roll: (50, 120),
            ilvl_scale: 3,
            tags: ICE | CASTER | UTILITY,
            min_ilvl: 5,
            rarity_min: Rarity::Rare,
            weight: 25,
        },
        AffixDef {
            id: "cdr_evasive_roll",
            name_template: "Evasive Roll cooldown {}",
            effect: AffixEffect::ReduceAbilityCooldown(AbilityId("evasive_roll")),
            roll: (50, 120),
            ilvl_scale: 3,
            tags: SPEED | UTILITY,
            min_ilvl: 5,
            rarity_min: Rarity::Rare,
            weight: 25,
        },
        AffixDef {
            id: "mod_fire_ball_extra_proj",
            name_template: "Fireball fires {} extra projectiles",
            effect: AffixEffect::ExtraProjectiles(AbilityId("fire_ball")),
            roll: (1000, 1000),
            ilvl_scale: 0,
            tags: SPEED,
            min_ilvl: 15,
            rarity_min: Rarity::Legendary,
            weight: 10,
        },
        AffixDef {
            id: "transform_frost_ray_shatter",
            name_template: "Frost Ray detonates into shards",
            effect: AffixEffect::TransformAbility(AbilityId("frost_ray"), AbilityVariant::FrostRayShatter),
            roll: (0, 0),
            ilvl_scale: 0,
            tags: ICE | CASTER,
            min_ilvl: 15,
            rarity_min: Rarity::Legendary,
            weight: 8,
        },
        AffixDef {
            id: "pct_physical_damage",
            name_template: "{} Physical Damage",
            effect: AffixEffect::Stat(Stat::PhysicalDamage),
            roll: (60, 140),
            ilvl_scale: 5,
            tags: ALL,
            min_ilvl: 1,
            rarity_min: Rarity::Common,
            weight: 0,
        },
        AffixDef {
            id: "pct_projectile_damage",
            name_template: "{} Projectile Damage",
            effect: AffixEffect::Stat(Stat::ProjectileDamage),
            roll: (60, 140),
            ilvl_scale: 5,
            tags: ALL,
            min_ilvl: 1,
            rarity_min: Rarity::Common,
            weight: 0,
        },
        AffixDef {
            id: "pct_melee_damage",
            name_template: "{} Melee Damage",
            effect: AffixEffect::Stat(Stat::MeleeDamage),
            roll: (60, 140),
            ilvl_scale: 5,
            tags: ALL,
            min_ilvl: 1,
            rarity_min: Rarity::Common,
            weight: 0,
        },
    ];
    assert(r@ == spec_affix_pool());
    r
}

/// Resonance lines: off-family axis lines that Rare / Legendary drops
/// may carry as an extra.
pub open spec fn spec_resonance_pool() -> Seq<AffixDef> {
    seq![
        AffixDef {
            id: "res_physical_damage",
            name_template: "Resonant {} Physical Damage",
            effect: AffixEffect::Stat(Stat::PhysicalDamage),
            roll: (40, 80),
            ilvl_scale: 3,
            tags: ALL,
            min_ilvl: 5,
            rarity_min: Rarity::Rare,
            weight: 1,
        },
        AffixDef {
            id: "res_fire_damage",
            name_template: "Resonant {} Fire Damage",
            effect: AffixEffect::Stat(Stat::FireDamage),
            roll: (40, 80),
            ilvl_scale: 3,
            tags: ALL,
            min_ilvl: 5,
            rarity_min: Rarity::Rare,
            weight: 1,
        },
        AffixDef {
            id: "res_ice_damage",
            name_template: "Resonant {} Ice Damage",
            effect: AffixEffect::Stat(Stat::IceDamage),
            roll: (40, 80),
            ilvl_scale: 3,
            tags: ALL,
            min_ilvl: 5,
            rarity_min: Rarity::Rare,
            weight: 1,
        },
        AffixDef {
            id: "res_lightning_damage",
            name_template: "Resonant {} Lightning Damage",
            effect: AffixEffect::Stat(Stat::LightningDamage),
            roll: (40, 80),
            ilvl_scale: 3,
            tags: ALL,
            min_ilvl: 5,
            rarity_min: Rarity::Rare,
            weight: 1,
        },
        AffixDef {
            id: "res_projectile_damage",
            name_template: "Resonant {} Projectile Damage",
            effect: AffixEffect::Stat(Stat::ProjectileDamage),
            roll: (40, 80),
            ilvl_scale: 3,
            tags: ALL,
            min_ilvl: 5,
            rarity_min: Rarity::Rare,
            weight: 1,
        },
        AffixDef {
            id: "res_melee_damage",
            name_template: "Resonant {} Melee Damage",
            effect: AffixEffect::Stat(Stat::MeleeDamage),
            roll: (40, 80),
            ilvl_scale: 3,
            tags: ALL,
            min_ilvl: 5,
            rarity_min: Rarity::Rare,
            weight: 1,
        },
        AffixDef {
            id: "res_strength",
            name_template: "Resonant {} Strength",
            effect: AffixEffect::Stat(Stat::Strength),
            roll: (2000, 5000),
            ilvl_scale: 400,
            tags: ALL,
            min_ilvl: 5,
            rarity_min: Rarity::Rare,
            weight: 1,
        },
        AffixDef {
            id: "res_agility",
            name_template: "Resonant {} Agility",
            effect: AffixEffect::Stat(Stat::Agility),
            roll: (2000, 5000),
            ilvl_scale: 400,
            tags: ALL,
            min_ilvl: 5,
            rarity_min: Rarity::Rare,
            weight: 1,
        },
        AffixDef {
            id: "res_intellect",
            name_template: "Resonant {} Intellect",
            effect: AffixEffect::Stat(Stat::Intellect),
            roll: (2000, 5000),
            ilvl_scale: 400,
            tags: ALL,
            min_ilvl: 5,
            rarity_min: Rarity::Rare,
            weight: 1,
        },
    ]
}

/// Resonance lines: off-family axis lines that Rare / Legendary drops
/// may carry as an extra.
pub fn resonance_pool() -> (r: &'static [AffixDef])
    ensures
        r@ == spec_resonance_pool(),
{
    let r: &'static [AffixDef] = &[
        AffixDef {
            id: "res_physical_damage",
            name_template: "Resonant {} Physical Damage",
            effect: AffixEffect::Stat(Stat::PhysicalDamage),
            roll: (40, 80),
            ilvl_scale: 3,
            tags: ALL,
            min_ilvl: 5,
            rarity_min: Rarity::Rare,
            weight: 1,
        },
        AffixDef {
            id: "res_fire_damage",
            name_template: "Resonant {} Fire Damage",
            effect: AffixEffect::Stat(Stat::FireDamage),
            roll: (40, 80),
            ilvl_scale: 3,
            tags: ALL,
            min_ilvl: 5,
            rarity_min: Rarity::Rare,
            weight: 1,
        },
        AffixDef {
            id: "res_ice_damage",
            name_template: "Resonant {} Ice Damage",
            effect: AffixEffect::Stat(Stat::IceDamage),
            roll: (40, 80),
            ilvl_scale: 3,
            tags: ALL,
            min_ilvl: 5,
            rarity_min: Rarity::Rare,
            weight: 1,
        },
        AffixDef {
            id: "res_lightning_damage",
            name_template: "Resonant {} Lightning Damage",
            effect: AffixEffect::Stat(Stat::LightningDamage),
            roll: (40, 80),
            ilvl_scale: 3,
            tags: ALL,
            min_ilvl: 5,
            rarity_min: Rarity::Rare,
            weight: 1,
        },
        AffixDef {
            id: "res_projectile_damage",
            name_template: "Resonant {} Projectile Damage",
            effect: AffixEffect::Stat(Stat::ProjectileDamage),
            roll: (40, 80),
            ilvl_scale: 3,
            tags: ALL,
            min_ilvl: 5,
            rarity_min: Rarity::Rare,
            weight: 1,
        },
        AffixDef {
            id: "res_melee_damage",
            name_template: "Resonant {} Melee Damage",
            effect: AffixEffect::Stat(Stat::MeleeDamage),
            roll: (40, 80),
            ilvl_scale: 3,
            tags: ALL,
            min_ilvl: 5,
            rarity_min: Rarity::Rare,
            weight: 1,
        },
        AffixDef {
            id: "res_strength",
            name_template: "Resonant {} Strength",
            effect: AffixEffect::Stat(Stat::Strength),
            roll: (2000, 5000),
            ilvl_scale: 400,
            tags: ALL,
            min_ilvl: 5,
            rarity_min: Rarity::Rare,
            weight: 1,
        },
        AffixDef {
            id: "res_agility",
            name_template: "Resonant {} Agility",
            effect: AffixEffect::Stat(Stat::Agility),
            roll: (2000, 5000),
            ilvl_scale: 400,
            tags: ALL,
            min_ilvl: 5,
            rarity_min: Rarity::Rare,
            weight: 1,
        },
        AffixDef {
            id: "res_intellect",
            name_template: "Resonant {} Intellect",
            effect: AffixEffect::Stat(Stat::Intellect),
            roll: (2000, 5000),
            ilvl_scale: 400,
            tags: ALL,
            min_ilvl: 5,
            rarity_min: Rarity::Rare,
            weight: 1,
        },
    ];
    assert(r@ == spec_resonance_pool());
    r
}

/// Rift-touched bonus lines, rolled only at the drop site inside a rift.
pub open spec fn spec_rift_touched_pool() -> Seq<AffixDef> {
    seq![
        AffixDef {
            id: "rt_crit_chance",
            name_template: "{} Crit Chance",
            effect: AffixEffect::Stat(Stat::CritChance),
            roll: (30, 60),
            ilvl_scale: 0,
            tags: ALL,
            min_ilvl: 1,
            rarity_min: Rarity::Common,
            weight: 1,
        },
        AffixDef {
            id: "rt_elemental_resist",
            name_template: "{} Elemental Resist",
            effect: AffixEffect::Stat(Stat::ElementalResist),
            roll: (40, 80),
            ilvl_scale: 0,
            tags: ALL,
            min_ilvl: 1,
            rarity_min: Rarity::Common,
            weight: 1,
        },
        AffixDef {
            id: "rt_cooldown_reduction",
            name_template: "{} Cooldown Reduction",
            effect: AffixEffect::Stat(Stat::CooldownReduction),
            roll: (30, 60),
            ilvl_scale: 0,
            tags: ALL,
            min_ilvl: 1,
            rarity_min: Rarity::Common,
            weight: 1,
        },
        AffixDef {
            id: "rt_move_speed",
            name_template: "{} Move Speed",
            effect: AffixEffect::Stat(Stat::MoveSpeed),
            roll: (30, 60),
            ilvl_scale: 0,
            tags: ALL,
            min_ilvl: 1,
            rarity_min: Rarity::Common,
            weight: 1,
        },
        AffixDef {
            id: "rt_resource_regen",
            name_template: "{} Essence Regen",
            effect: AffixEffect::Stat(Stat::ResourceRegen),
            roll: (50, 100),
            ilvl_scale: 0,
            tags: ALL,
            min_ilvl: 1,
            rarity_min: Rarity::Common,
            weight: 1,
        },
        AffixDef {
            id: "rt_range",
            name_template: "{} Range",
            effect: AffixEffect::Stat(Stat::Range),
            roll: (40, 80),
            ilvl_scale: 0,
            tags: ALL,
            min_ilvl: 1,
            rarity_min: Rarity::Common,
            weight: 1,
        },
    ]
}

/// Rift-touched bonus lines, rolled only at the drop site inside a rift.
pub fn rift_touched_pool() -> (r: &'static [AffixDef])
    ensures
        r@ == spec_rift_touched_pool(),
{
    let r: &'static [AffixDef] = &[
        AffixDef {
            id: "rt_crit_chance",
            name_template: "{} Crit Chance",
            effect: AffixEffect::Stat(Stat::CritChance),
            roll: (30, 60),
            ilvl_scale: 0,
            tags: ALL,
            min_ilvl: 1,
            rarity_min: Rarity::Common,
            weight: 1,
        },
        AffixDef {
            id: "rt_elemental_resist",
            name_template: "{} Elemental Resist",
            effect: AffixEffect::Stat(Stat::ElementalResist),
            roll: (40, 80),
            ilvl_scale: 0,
            tags: ALL,
            min_ilvl: 1,
            rarity_min: Rarity::Common,
            weight: 1,
        },
        AffixDef {
            id: "rt_cooldown_reduction",
            name_template: "{} Cooldown Reduction",
            effect: AffixEffect::Stat(Stat::CooldownReduction),
            roll: (30, 60),
            ilvl_scale: 0,
            tags: ALL,
            min_ilvl: 1,
            rarity_min: Rarity::Common,
            weight: 1,
        },
        AffixDef {
            id: "rt_move_speed",
            name_template: "{} Move Speed",
            effect: AffixEffect::Stat(Stat::MoveSpeed),
            roll: (30, 60),
            ilvl_scale: 0,
            tags: ALL,
            min_ilvl: 1,
            rarity_min: Rarity::Common,
            weight: 1,
        },
        AffixDef {
            id: "rt_resource_regen",
            name_template: "{} Essence Regen",
            effect: AffixEffect::Stat(Stat::ResourceRegen),
            roll: (50, 100),
            ilvl_scale: 0,
            tags: ALL,
            min_ilvl: 1,
            rarity_min: Rarity::Common,
            weight: 1,
        },
        AffixDef {
            id: "rt_range",
            name_template: "{} Range",
            effect: AffixEffect::Stat(Stat::Range),
            roll: (40, 80),
            ilvl_scale: 0,
            tags: ALL,
            min_ilvl: 1,
            rarity_min: Rarity::Common,
            weight: 1,
        },
    ];
    assert(r@ == spec_rift_touched_pool());
    r
}

/// Number of entries in the main pool.
pub const AFFIX_POOL_LEN: usize = 27;

/// Number of entries in the resonance pool.
pub const RESONANCE_POOL_LEN: usize = 9;

/// Number of entries in the rift-touched pool.
pub const RIFT_TOUCHED_POOL_LEN: usize = 6;

/// Rift-touched lines only roll at or beyond this floor.
pub const RIFT_TOUCHED_MIN_FLOOR: u32 = 1;

/// `true` for resonance lines (id prefix `res_`).
pub open spec fn spec_is_resonance(def: AffixDef) -> bool {
    def.id@.len() >= 4 && def.id@.subrange(0, 4) == "res_"@
}

/// `true` for rift-touched lines (id prefix `rt_`).
pub open spec fn spec_is_rift_touched(def: AffixDef) -> bool {
    def.id@.len() >= 3 && def.id@.subrange(0, 3) == "rt_"@
}

pub fn is_resonance(def: &AffixDef) -> (r: bool)
    ensures
        r == spec_is_resonance(*def),
{
    proof { reveal_strlit("res_"); }
    starts_with(def.id, "res_")
}

pub fn is_rift_touched(def: &AffixDef) -> (r: bool)
    ensures
        r == spec_is_rift_touched(*def),
{
    proof { reveal_strlit("rt_"); }
    starts_with(def.id, "rt_")
}

/// Transforms, procs and extra projectiles: the gameplay-changing
/// effects that only roll on Legendary items.
pub open spec fn spec_is_legendary_effect(effect: AffixEffect) -> bool {
    match effect {
        AffixEffect::TransformAbility(_, _) | AffixEffect::Proc(_, _) | AffixEffect::ExtraProjectiles(_) => true,
        _ => false,
    }
}

pub fn is_legendary_effect(effect: &AffixEffect) -> (r: bool)
    ensures
        r == spec_is_legendary_effect(*effect),
{
    match effect {
        AffixEffect::TransformAbility(_, _) | AffixEffect::Proc(_, _) | AffixEffect::ExtraProjectiles(_) => true,
        _ => false,
    }
}

/// Which roll pipeline an affix belongs to.
#[derive(Clone, Copy, Debug, PartialEq, Eq, Structural)]
pub enum AffixCategory {
    /// Damage-element % lines (Physical / Fire / Ice / Lightning).
    Element,
    /// Damage-shape % lines (Projectile / Melee).
    Archetype,
    /// Primary-attribute flat points.
    Attribute,
    /// Off-family resonance lines.
    Resonance,
    /// Depth-scaled rift-touched lines.
    RiftTouched,
    /// Everything else.
    Bonus,
}

/// The category of an affix: id prefix first (resonance, rift-touched),
/// then the stat it adds.
pub open spec fn spec_category(def: AffixDef) -> AffixCategory {
    if spec_is_resonance(def) {
        AffixCategory::Resonance
    } else if spec_is_rift_touched(def) {
        AffixCategory::RiftTouched
    } else {
        match def.effect {
            AffixEffect::Stat(Stat::PhysicalDamage) | AffixEffect::Stat(Stat::FireDamage)
            | AffixEffect::Stat(Stat::IceDamage) | AffixEffect::Stat(Stat::LightningDamage) => AffixCategory::Element,
        AffixEffect::Stat(Stat::ProjectileDamage) | AffixEffect::Stat(Stat::MeleeDamage) => AffixCategory::Archetype,
            AffixEffect::Stat(Stat::Strength) | AffixEffect::Stat(Stat::Agility)
            | AffixEffect::Stat(Stat::Intellect) => AffixCategory::Attribute,
            _ => AffixCategory::Bonus,
        }
    }
}

pub fn category(def: &AffixDef) -> (r: AffixCategory)
    ensures
        r == spec_category(*def),
{
    if is_resonance(def) {
        return AffixCategory::Resonance;
    }
    if is_rift_touched(def) {
        return AffixCategory::RiftTouched;
    }
    match def.effect {
        AffixEffect::Stat(Stat::PhysicalDamage) | AffixEffect::Stat(Stat::FireDamage)
        | AffixEffect::Stat(Stat::IceDamage) | AffixEffect::Stat(Stat::LightningDamage) => AffixCategory::Element,
        AffixEffect::Stat(Stat::ProjectileDamage) | AffixEffect::Stat(Stat::MeleeDamage) => AffixCategory::Archetype,
        AffixEffect::Stat(Stat::Strength) | AffixEffect::Stat(Stat::Agility)
        | AffixEffect::Stat(Stat::Intellect) => AffixCategory::Attribute,
        _ => AffixCategory::Bonus,
    }
}

/// The family attribute an attribute line adds, if any.
pub open spec fn spec_affix_attribute(def: AffixDef) -> Option<families::Attribute> {
    match def.effect {
        AffixEffect::Stat(Stat::Strength) => Some(families::Attribute::Strength),
        AffixEffect::Stat(Stat::Agility) => Some(families::Attribute::Agility),
        AffixEffect::Stat(Stat::Intellect) => Some(families::Attribute::Intellect),
        _ => None,
    }
}

pub fn affix_attribute(def: &AffixDef) -> (r: Option<families::Attribute>)
    ensures
        r == spec_affix_attribute(*def),
{
    match def.effect {
        AffixEffect::Stat(Stat::Strength) => Some(families::Attribute::Strength),
        AffixEffect::Stat(Stat::Agility) => Some(families::Attribute::Agility),
        AffixEffect::Stat(Stat::Intellect) => Some(families::Attribute::Intellect),
        _ => None,
    }
}

/// The damage element an element line adds, if any.
pub open spec fn spec_affix_element(def: AffixDef) -> Option<families::Element> {
    match def.effect {
        AffixEffect::Stat(Stat::PhysicalDamage) => Some(families::Element::Physical),
        AffixEffect::Stat(Stat::FireDamage) => Some(families::Element::Fire),
        AffixEffect::Stat(Stat::IceDamage) => Some(families::Element::Ice),
        AffixEffect::Stat(Stat::LightningDamage) => Some(families::Element::Lightning),
        _ => None,
    }
}

pub fn affix_element(def: &AffixDef) -> (r: Option<families::Element>)
    ensures
        r == spec_affix_element(*def),
{
    match def.effect {
        AffixEffect::Stat(Stat::PhysicalDamage) => Some(families::Element::Physical),
        AffixEffect::Stat(Stat::FireDamage) => Some(families::Element::Fire),
        AffixEffect::Stat(Stat::IceDamage) => Some(families::Element::Ice),
        AffixEffect::Stat(Stat::LightningDamage) => Some(families::Element::Lightning),
        _ => None,
    }
}

/// The damage shape an archetype line adds, if any.
pub open spec fn spec_affix_archetype(def: AffixDef) -> Option<families::Archetype> {
    match def.effect {
        AffixEffect::Stat(Stat::ProjectileDamage) => Some(families::Archetype::Projectile),
        AffixEffect::Stat(Stat::MeleeDamage) => Some(families::Archetype::Melee),
        _ => None,
    }
}

pub fn affix_archetype(def: &AffixDef) -> (r: Option<families::Archetype>)
    ensures
        r == spec_affix_archetype(*def),
{
    match def.effect {
        AffixEffect::Stat(Stat::ProjectileDamage) => Some(families::Archetype::Projectile),
        AffixEffect::Stat(Stat::MeleeDamage) => Some(families::Archetype::Melee),
        _ => None,
    }
}

/// The archetype of a resonance line (`None` for other lines).
pub fn resonance_archetype(def: &AffixDef) -> (r: Option<families::Archetype>)
    ensures
        r == (if spec_is_resonance(*def) { spec_affix_archetype(*def) } else { None }),
{
    if !is_resonance(def) {
        return None;
    }
    affix_archetype(def)
}

/// The element of a resonance line (`None` for other lines).
pub fn resonance_element(def: &AffixDef) -> (r: Option<families::Element>)
    ensures
        r == (if spec_is_resonance(*def) { spec_affix_element(*def) } else { None }),
{
    if !is_resonance(def) {
        return None;
    }
    affix_element(def)
}

/// The attribute of a resonance line (`None` for other lines).
pub fn resonance_attribute(def: &AffixDef) -> (r: Option<families::Attribute>)
    ensures
        r == (if spec_is_resonance(*def) { spec_affix_attribute(*def) } else { None }),
{
    if !is_resonance(def) {
        return None;
    }
    affix_attribute(def)
}

/// Every affix, in lookup order: main pool, then resonance, then rift-touched.
pub open spec fn spec_all_affixes() -> Seq<AffixDef> {
    spec_affix_pool() + spec_resonance_pool() + spec_rift_touched_pool()
}

/// The first affix at or after `from` in `pool` whose id is `id`.
pub open spec fn spec_find_id(pool: Seq<AffixDef>, id: Seq<char>, from: int) -> Option<AffixDef>
    decreases pool.len() - from,
{
    if from < 0 || from >= pool.len() {
        None
    } else if pool[from].id@ == id {
        Some(pool[from])
    } else {
        spec_find_id(pool, id, from + 1)
    }
}

/// Find a row by id in a pool, scanning from the front.
fn find_in(pool: &[AffixDef], id: &str) -> (r: Option<AffixDef>)
    ensures
        r == spec_find_id(pool@, id@, 0),
{
    let mut i: usize = 0;
    while i < pool.len()
        invariant
            i <= pool@.len(),
            spec_find_id(pool@, id@, 0) == spec_find_id(pool@, id@, i as int),
        decreases pool@.len() - i,
    {
        if crate::text::str_eq(pool[i].id, id) {
            return Some(pool[i]);
        }
        i = i + 1;
    }
    None
}

/// Resolve an affix by its stable id across all three pools.
pub fn lookup(id: &str) -> (r: Option<AffixDef>)
    ensures
        r == spec_find_id(spec_all_affixes(), id@, 0),
{
    let main = affix_pool();
    let res = resonance_pool();
    let rt = rift_touched_pool();
    proof { lemma_find_id_concat(spec_affix_pool(), spec_resonance_pool(), spec_rift_touched_pool(), id@); }
    if let Some(d) = find_in(main, id) {
        return Some(d);
    }
    if let Some(d) = find_in(res, id) {
        return Some(d);
    }
    find_in(rt, id)
}

/// Searching a concatenation searches the parts in order.
proof fn lemma_find_id_concat(a: Seq<AffixDef>, b: Seq<AffixDef>, c: Seq<AffixDef>, id: Seq<char>)
    ensures
        spec_find_id(a + b + c, id, 0) == (match spec_find_id(a, id, 0) {
            Some(d) => Some(d),
            None => match spec_find_id(b, id, 0) {
                Some(d) => Some(d),
                None => spec_find_id(c, id, 0),
            },
        }),
{
    lemma_find_id_append(a, b + c, id, 0);
    lemma_find_id_append(b, c, id, 0);
    assert(a + b + c == a + (b + c));
}

/// Searching `a + b` from `from` inside `a` is searching `a`, then `b`.
proof fn lemma_find_id_append(a: Seq<AffixDef>, b: Seq<AffixDef>, id: Seq<char>, from: int)
    requires
        0 <= from,
    ensures
        spec_find_id(a + b, id, from) == (if from <= a.len() {
            match spec_find_id(a, id, from) {
                Some(d) => Some(d),
                None => spec_find_id(b, id, 0),
            }
        } else {
            spec_find_id(b, id, from - a.len())
        }),
    decreases a.len() + b.len() - from,
{
    if from < a.len() + b.len() {
        lemma_find_id_append(a, b, id, from + 1);
    }
    if from >= a.len() {
        lemma_find_id_shift(a, b, id, from);
    }
}

/// Past the end of `a`, searching `a + b` is searching `b`.
proof fn lemma_find_id_shift(a: Seq<AffixDef>, b: Seq<AffixDef>, id: Seq<char>, from: int)
    requires
        from >= a.len(),
    ensures
        spec_find_id(a + b, id, from) == spec_find_id(b, id, from - a.len()),
    decreases a.len() + b.len() - from,
{
    if from < a.len() + b.len() {
        lemma_find_id_shift(a, b, id, from + 1);
    }
}

/// Number of deterministic signature lines a slot receives.
pub open spec fn spec_signature_count(slot: EquipSlot) -> usize {
    match slot {
        EquipSlot::Hands => 2,
        EquipSlot::Helm | EquipSlot::Shoulders | EquipSlot::Chest | EquipSlot::Legs | EquipSlot::Boots => 1,
        EquipSlot::Weapon | EquipSlot::Ring1 | EquipSlot::Ring2 | EquipSlot::Amulet => 0,
    }
}

pub fn signature_count(slot: EquipSlot) -> (r: usize)
    ensures
        r == spec_signature_count(slot),
{
    match slot {
        EquipSlot::Hands => 2,
        EquipSlot::Helm | EquipSlot::Shoulders | EquipSlot::Chest | EquipSlot::Legs | EquipSlot::Boots => 1,
        EquipSlot::Weapon | EquipSlot::Ring1 | EquipSlot::Ring2 | EquipSlot::Amulet => 0,
    }
}

/// The signature affix ids of each slot: helm cooldown, shoulders and
/// legs armor, chest health, gloves the crit pair, boots move speed;
/// weapons and jewellery have none.
pub open spec fn spec_signature_for(slot: EquipSlot) -> Seq<&'static str> {
    match slot {
        EquipSlot::Helm => seq!["pct_cooldown"],
        EquipSlot::Shoulders => seq!["flat_armor"],
        EquipSlot::Chest => seq!["flat_health"],
        EquipSlot::Legs => seq!["flat_armor"],
        EquipSlot::Hands => seq!["pct_crit_chance", "pct_crit_damage"],
        EquipSlot::Boots => seq!["pct_move_speed"],
        EquipSlot::Weapon | EquipSlot::Ring1 | EquipSlot::Ring2 | EquipSlot::Amulet => seq![],
    }
}

/// The deterministic per-slot signature affix ids. The generator is
/// accepted for call-site stability and not consumed.
pub fn signature_for(slot: EquipSlot, rng: &mut LootRng) -> (r: Vec<&'static str>)
    ensures
        r@ == spec_signature_for(slot),
        r@.len() == spec_signature_count(slot),
        final(rng).state() == old(rng).state(),
{
    let mut out: Vec<&'static str> = Vec::new();
    match slot {
        EquipSlot::Helm => out.push("pct_cooldown"),
        EquipSlot::Shoulders => out.push("flat_armor"),
        EquipSlot::Chest => out.push("flat_health"),
        EquipSlot::Legs => out.push("flat_armor"),
        EquipSlot::Hands => {
            out.push("pct_crit_chance");
            out.push("pct_crit_damage");
        },
        EquipSlot::Boots => out.push("pct_move_speed"),
        EquipSlot::Weapon | EquipSlot::Ring1 | EquipSlot::Ring2 | EquipSlot::Amulet => {},
    }
    assert(out@ =~= spec_signature_for(slot));
    out
}

/// Wire index of an affix: its position in the main pool followed by
/// the resonance pool.
pub open spec fn spec_wire_space() -> Seq<AffixDef> {
    spec_affix_pool() + spec_resonance_pool()
}

/// The affix at wire index `idx`, `None` when out of range.
pub fn affix_def_by_wire_index(idx: u16) -> (r: Option<AffixDef>)
    ensures
        (idx as int) < spec_wire_space().len() ==> r == Some(spec_wire_space()[idx as int]),
        (idx as int) >= spec_wire_space().len() ==> r is None,
{
    let main = affix_pool();
    let res = resonance_pool();
    let i = idx as usize;
    if i < main.len() {
        Some(main[i])
    } else if i - main.len() < res.len() {
        Some(res[i - main.len()])
    } else {
        None
    }
}

/// The wire index of the first affix in the wire space with `def`'s id.
pub fn wire_index_for_affix(def: &AffixDef) -> (r: Option<u16>)
    ensures
        r matches Some(i) ==> (i as int) < spec_wire_space().len() && spec_wire_space()[i as int].id@
            == def.id@ && forall|k: int| 0 <= k < i ==> spec_wire_space()[k].id@ != def.id@,
        r is None ==> forall|k: int| 0 <= k < spec_wire_space().len() ==> spec_wire_space()[k].id@ != def.id@,
{
    let main = affix_pool();
    let res = resonance_pool();
    let ghost ws = spec_wire_space();
    let mut i: usize = 0;
    while i < main.len()
        invariant
            i <= main@.len(),
            main@ == spec_affix_pool(),
            ws == spec_affix_pool() + spec_resonance_pool(),
            forall|k: int| 0 <= k < i ==> ws[k].id@ != def.id@,
        decreases main@.len() - i,
    {
        if crate::text::str_eq(main[i].id, def.id) {
            assert(ws[i as int] == main@[i as int]);
            return Some(i as u16);
        }
        assert(ws[i as int] == main@[i as int]);
        i = i + 1;
    }
    let mut j: usize = 0;
    while j < res.len()
        invariant
            j <= res@.len(),
            main@ == spec_affix_pool(),
            res@ == spec_resonance_pool(),
            ws == spec_affix_pool() + spec_resonance_pool(),
            forall|k: int| 0 <= k < main@.len() + j ==> ws[k].id@ != def.id@,
        decreases res@.len() - j,
    {
        if crate::text::str_eq(res[j].id, def.id) {
            assert(ws[main@.len() + j] == res@[j as int]);
            return Some((main.len() + j) as u16);
        }
        assert(ws[main@.len() + j] == res@[j as int]);
        j = j + 1;
    }
    None
}



/// A string that differs from a prefix at some position inside the
/// prefix does not start with that prefix.
proof fn lemma_char_differs(s: Seq<char>, p: Seq<char>, i: int)
    requires
        0 <= i < p.len(),
        i < s.len(),
        s[i] != p[i],
    ensures
        !(s.len() >= p.len() && s.subrange(0, p.len() as int) == p),
{
    if s.len() >= p.len() && s.subrange(0, p.len() as int) == p {
        assert(s.subrange(0, p.len() as int)[i] == s[i]);
    }
}

/// No main-pool id carries the resonance or rift-touched prefix, and
/// every resonance-pool id carries the resonance prefix.
pub proof fn lemma_pool_prefixes()
    ensures
        forall|k: int|
            0 <= k < spec_affix_pool().len() ==> !spec_is_resonance(#[trigger] spec_affix_pool()[k])
                && !spec_is_rift_touched(spec_affix_pool()[k]),
        forall|k: int|
            0 <= k < spec_resonance_pool().len() ==> spec_is_resonance(#[trigger] spec_resonance_pool()[k])
                && !spec_is_rift_touched(spec_resonance_pool()[k]),
{
    reveal_strlit("res_");
    reveal_strlit("rt_");
    reveal_strlit("flat_strength");
    lemma_char_differs(spec_affix_pool()[0].id@, "res_"@, 0);
    lemma_char_differs(spec_affix_pool()[0].id@, "rt_"@, 0);
    reveal_strlit("flat_agility");
    lemma_char_differs(spec_affix_pool()[1].id@, "res_"@, 0);
    lemma_char_differs(spec_affix_pool()[1].id@, "rt_"@, 0);
    reveal_strlit("flat_intellect");
    lemma_char_differs(spec_affix_pool()[2].id@, "res_"@, 0);
    lemma_char_differs(spec_affix_pool()[2].id@, "rt_"@, 0);
    reveal_strlit("flat_health");
    lemma_char_differs(spec_affix_pool()[3].id@, "res_"@, 0);
    lemma_char_differs(spec_affix_pool()[3].id@, "rt_"@, 0);
    reveal_strlit("flat_armor");
    lemma_char_differs(spec_affix_pool()[4].id@, "res_"@, 0);
    lemma_char_differs(spec_affix_pool()[4].id@, "rt_"@, 0);
    reveal_strlit("pct_attack_speed");
    lemma_char_differs(spec_affix_pool()[5].id@, "res_"@, 0);
    lemma_char_differs(spec_affix_pool()[5].id@, "rt_"@, 0);
    reveal_strlit("pct_move_speed");
    lemma_char_differs(spec_affix_pool()[6].id@, "res_"@, 0);
    lemma_char_differs(spec_affix_pool()[6].id@, "rt_"@, 0);
    reveal_strlit("pct_evasion");
    lemma_char_differs(spec_affix_pool()[7].id@, "res_"@, 0);
    lemma_char_differs(spec_affix_pool()[7].id@, "rt_"@, 0);
    reveal_strlit("pct_resource_regen");
    lemma_char_differs(spec_affix_pool()[8].id@, "res_"@, 0);
    lemma_char_differs(spec_affix_pool()[8].id@, "rt_"@, 0);
    reveal_strlit("flat_health_regen");
    lemma_char_differs(spec_affix_pool()[9].id@, "res_"@, 0);
    lemma_char_differs(spec_affix_pool()[9].id@, "rt_"@, 0);
    reveal_strlit("pct_elemental_resist");
    lemma_char_differs(spec_affix_pool()[10].id@, "res_"@, 0);
    lemma_char_differs(spec_affix_pool()[10].id@, "rt_"@, 0);
    reveal_strlit("pct_healing_received");
    lemma_char_differs(spec_affix_pool()[11].id@, "res_"@, 0);
    lemma_char_differs(spec_affix_pool()[11].id@, "rt_"@, 0);
    reveal_strlit("pct_crit_chance");
    lemma_char_differs(spec_affix_pool()[12].id@, "res_"@, 0);
    lemma_char_differs(spec_affix_pool()[12].id@, "rt_"@, 0);
    reveal_strlit("pct_crit_damage");
    lemma_char_differs(spec_affix_pool()[13].id@, "res_"@, 0);
    lemma_char_differs(spec_affix_pool()[13].id@, "rt_"@, 0);
    reveal_strlit("pct_cooldown");
    lemma_char_differs(spec_affix_pool()[14].id@, "res_"@, 0);
    lemma_char_differs(spec_affix_pool()[14].id@, "rt_"@, 0);
    reveal_strlit("pct_fire_damage");
    lemma_char_differs(spec_affix_pool()[15].id@, "res_"@, 0);
    lemma_char_differs(spec_affix_pool()[15].id@, "rt_"@, 0);
    reveal_strlit("pct_ice_damage");
    lemma_char_differs(spec_affix_pool()[16].id@, "res_"@, 0);
    lemma_char_differs(spec_affix_pool()[16].id@, "rt_"@, 0);
    reveal_strlit("pct_lightning_damage");
    lemma_char_differs(spec_affix_pool()[17].id@, "res_"@, 0);
    lemma_char_differs(spec_affix_pool()[17].id@, "rt_"@, 0);
    reveal_strlit("amp_frost_ray_dmg");
    lemma_char_differs(spec_affix_pool()[18].id@, "res_"@, 0);
    lemma_char_differs(spec_affix_pool()[18].id@, "rt_"@, 0);
    reveal_strlit("amp_whirlwind_dmg");
    lemma_char_differs(spec_affix_pool()[19].id@, "res_"@, 0);
    lemma_char_differs(spec_affix_pool()[19].id@, "rt_"@, 0);
    reveal_strlit("cdr_frost_ray");
    lemma_char_differs(spec_affix_pool()[20].id@, "res_"@, 0);
    lemma_char_differs(spec_affix_pool()[20].id@, "rt_"@, 0);
    reveal_strlit("cdr_evasive_roll");
    lemma_char_differs(spec_affix_pool()[21].id@, "res_"@, 0);
    lemma_char_differs(spec_affix_pool()[21].id@, "rt_"@, 0);
    reveal_strlit("mod_fire_ball_extra_proj");
    lemma_char_differs(spec_affix_pool()[22].id@, "res_"@, 0);
    lemma_char_differs(spec_affix_pool()[22].id@, "rt_"@, 0);
    reveal_strlit("transform_frost_ray_shatter");
    lemma_char_differs(spec_affix_pool()[23].id@, "res_"@, 0);
    lemma_char_differs(spec_affix_pool()[23].id@, "rt_"@, 0);
    reveal_strlit("pct_physical_damage");
    lemma_char_differs(spec_affix_pool()[24].id@, "res_"@, 0);
    lemma_char_differs(spec_affix_pool()[24].id@, "rt_"@, 0);
    reveal_strlit("pct_projectile_damage");
    lemma_char_differs(spec_affix_pool()[25].id@, "res_"@, 0);
    lemma_char_differs(spec_affix_pool()[25].id@, "rt_"@, 0);
    reveal_strlit("pct_melee_damage");
    lemma_char_differs(spec_affix_pool()[26].id@, "res_"@, 0);
    lemma_char_differs(spec_affix_pool()[26].id@, "rt_"@, 0);
    reveal_strlit("res_physical_damage");
    assert(spec_resonance_pool()[0].id@.subrange(0, 4) =~= "res_"@);
    lemma_char_differs(spec_resonance_pool()[0].id@, "rt_"@, 1);
    reveal_strlit("res_fire_damage");
    assert(spec_resonance_pool()[1].id@.subrange(0, 4) =~= "res_"@);
    lemma_char_differs(spec_resonance_pool()[1].id@, "rt_"@, 1);
    reveal_strlit("res_ice_damage");
    assert(spec_resonance_pool()[2].id@.subrange(0, 4) =~= "res_"@);
    lemma_char_differs(spec_resonance_pool()[2].id@, "rt_"@, 1);
    reveal_strlit("res_lightning_damage");
    assert(spec_resonance_pool()[3].id@.subrange(0, 4) =~= "res_"@);
    lemma_char_differs(spec_resonance_pool()[3].id@, "rt_"@, 1);
    reveal_strlit("res_projectile_damage");
    assert(spec_resonance_pool()[4].id@.subrange(0, 4) =~= "res_"@);
    lemma_char_differs(spec_resonance_pool()[4].id@, "rt_"@, 1);
    reveal_strlit("res_melee_damage");
    assert(spec_resonance_pool()[5].id@.subrange(0, 4) =~= "res_"@);
    lemma_char_differs(spec_resonance_pool()[5].id@, "rt_"@, 1);
    reveal_strlit("res_strength");
    assert(spec_resonance_pool()[6].id@.subrange(0, 4) =~= "res_"@);
    lemma_char_differs(spec_resonance_pool()[6].id@, "rt_"@, 1);
    reveal_strlit("res_agility");
    assert(spec_resonance_pool()[7].id@.subrange(0, 4) =~= "res_"@);
    lemma_char_differs(spec_resonance_pool()[7].id@, "rt_"@, 1);
    reveal_strlit("res_intellect");
    assert(spec_resonance_pool()[8].id@.subrange(0, 4) =~= "res_"@);
    lemma_char_differs(spec_resonance_pool()[8].id@, "rt_"@, 1);
}


/// The first row whose id matches is the one a search finds.
proof fn lemma_find_id_first(pool: Seq<AffixDef>, id: Seq<char>, from: int, k: int)
    requires
        0 <= from <= k < pool.len(),
        pool[k].id@ == id,
        forall|j: int| from <= j < k ==> pool[j].id@ != id,
    ensures
        spec_find_id(pool, id, from) == Some(pool[k]),
    decreases k - from,
{
    if from < k {
        lemma_find_id_first(pool, id, from + 1, k);
    }
}

/// The ids every slot's signature lines are looked up by.
pub open spec fn spec_signature_ids_resolve() -> bool {
    &&& spec_find_id(spec_all_affixes(), "pct_cooldown"@, 0) == Some(spec_affix_pool()[14])
    &&& spec_find_id(spec_all_affixes(), "flat_armor"@, 0) == Some(spec_affix_pool()[4])
    &&& spec_find_id(spec_all_affixes(), "flat_health"@, 0) == Some(spec_affix_pool()[3])
    &&& spec_find_id(spec_all_affixes(), "pct_crit_chance"@, 0) == Some(spec_affix_pool()[12])
    &&& spec_find_id(spec_all_affixes(), "pct_crit_damage"@, 0) == Some(spec_affix_pool()[13])
    &&& spec_find_id(spec_all_affixes(), "pct_move_speed"@, 0) == Some(spec_affix_pool()[6])
}

/// Every signature id resolves to its row of the main pool.
pub proof fn lemma_signature_ids_resolve()
    ensures
        spec_signature_ids_resolve(),
{
    reveal_strlit("flat_strength");
    reveal_strlit("flat_agility");
    reveal_strlit("flat_intellect");
    reveal_strlit("flat_health");
    reveal_strlit("flat_armor");
    reveal_strlit("pct_attack_speed");
    reveal_strlit("pct_move_speed");
    reveal_strlit("pct_evasion");
    reveal_strlit("pct_resource_regen");
    reveal_strlit("flat_health_regen");
    reveal_strlit("pct_elemental_resist");
    reveal_strlit("pct_healing_received");
    reveal_strlit("pct_crit_chance");
    reveal_strlit("pct_crit_damage");
    reveal_strlit("pct_cooldown");
    reveal_strlit("pct_fire_damage");
    reveal_strlit("pct_ice_damage");
    reveal_strlit("pct_lightning_damage");
    reveal_strlit("amp_frost_ray_dmg");
    reveal_strlit("amp_whirlwind_dmg");
    reveal_strlit("cdr_frost_ray");
    reveal_strlit("cdr_evasive_roll");
    reveal_strlit("mod_fire_ball_extra_proj");
    reveal_strlit("transform_frost_ray_shatter");
    reveal_strlit("pct_physical_damage");
    // `pct_cooldown` is row 14.
    assert(spec_affix_pool()[0].id@[0] != "pct_cooldown"@[0]);
    assert(spec_affix_pool()[1].id@[0] != "pct_cooldown"@[0]);
    assert(spec_affix_pool()[2].id@[0] != "pct_cooldown"@[0]);
    assert(spec_affix_pool()[3].id@[0] != "pct_cooldown"@[0]);
    assert(spec_affix_pool()[4].id@[0] != "pct_cooldown"@[0]);
    assert(spec_affix_pool()[5].id@[4] != "pct_cooldown"@[4]);
    assert(spec_affix_pool()[6].id@[4] != "pct_cooldown"@[4]);
    assert(spec_affix_pool()[7].id@[4] != "pct_cooldown"@[4]);
    assert(spec_affix_pool()[8].id@[4] != "pct_cooldown"@[4]);
    assert(spec_affix_pool()[9].id@[0] != "pct_cooldown"@[0]);
    assert(spec_affix_pool()[10].id@[4] != "pct_cooldown"@[4]);
    assert(spec_affix_pool()[11].id@[4] != "pct_cooldown"@[4]);
    assert(spec_affix_pool()[12].id@[5] != "pct_cooldown"@[5]);
    assert(spec_affix_pool()[13].id@[5] != "pct_cooldown"@[5]);
    lemma_find_id_first(spec_affix_pool(), "pct_cooldown"@, 0, 14);
    // `flat_armor` is row 4.
    assert(spec_affix_pool()[0].id@[5] != "flat_armor"@[5]);
    assert(spec_affix_pool()[1].id@[6] != "flat_armor"@[6]);
    assert(spec_affix_pool()[2].id@[5] != "flat_armor"@[5]);
    assert(spec_affix_pool()[3].id@[5] != "flat_armor"@[5]);
    lemma_find_id_first(spec_affix_pool(), "flat_armor"@, 0, 4);
    // `flat_health` is row 3.
    assert(spec_affix_pool()[0].id@[5] != "flat_health"@[5]);
    assert(spec_affix_pool()[1].id@[5] != "flat_health"@[5]);
    assert(spec_affix_pool()[2].id@[5] != "flat_health"@[5]);
    lemma_find_id_first(spec_affix_pool(), "flat_health"@, 0, 3);
    // `pct_crit_chance` is row 12.
    assert(spec_affix_pool()[0].id@[0] != "pct_crit_chance"@[0]);
    assert(spec_affix_pool()[1].id@[0] != "pct_crit_chance"@[0]);
    assert(spec_affix_pool()[2].id@[0] != "pct_crit_chance"@[0]);
    assert(spec_affix_pool()[3].id@[0] != "pct_crit_chance"@[0]);
    assert(spec_affix_pool()[4].id@[0] != "pct_crit_chance"@[0]);
    assert(spec_affix_pool()[5].id@[4] != "pct_crit_chance"@[4]);
    assert(spec_affix_pool()[6].id@[4] != "pct_crit_chance"@[4]);
    assert(spec_affix_pool()[7].id@[4] != "pct_crit_chance"@[4]);
    assert(spec_affix_pool()[8].id@[4] != "pct_crit_chance"@[4]);
    assert(spec_affix_pool()[9].id@[0] != "pct_crit_chance"@[0]);
    assert(spec_affix_pool()[10].id@[4] != "pct_crit_chance"@[4]);
    assert(spec_affix_pool()[11].id@[4] != "pct_crit_chance"@[4]);
    lemma_find_id_first(spec_affix_pool(), "pct_crit_chance"@, 0, 12);
    // `pct_crit_damage` is row 13.
    assert(spec_affix_pool()[0].id@[0] != "pct_crit_damage"@[0]);
    assert(spec_affix_pool()[1].id@[0] != "pct_crit_damage"@[0]);
    assert(spec_affix_pool()[2].id@[0] != "pct_crit_damage"@[0]);
    assert(spec_affix_pool()[3].id@[0] != "pct_crit_damage"@[0]);
    assert(spec_affix_pool()[4].id@[0] != "pct_crit_damage"@[0]);
    assert(spec_affix_pool()[5].id@[4] != "pct_crit_damage"@[4]);
    assert(spec_affix_pool()[6].id@[4] != "pct_crit_damage"@[4]);
    assert(spec_affix_pool()[7].id@[4] != "pct_crit_damage"@[4]);
    assert(spec_affix_pool()[8].id@[4] != "pct_crit_damage"@[4]);
    assert(spec_affix_pool()[9].id@[0] != "pct_crit_damage"@[0]);
    assert(spec_affix_pool()[10].id@[4] != "pct_crit_damage"@[4]);
    assert(spec_affix_pool()[11].id@[4] != "pct_crit_damage"@[4]);
    assert(spec_affix_pool()[12].id@[9] != "pct_crit_damage"@[9]);
    lemma_find_id_first(spec_affix_pool(), "pct_crit_damage"@, 0, 13);
    // `pct_move_speed` is row 6.
    assert(spec_affix_pool()[0].id@[0] != "pct_move_speed"@[0]);
    assert(spec_affix_pool()[1].id@[0] != "pct_move_speed"@[0]);
    assert(spec_affix_pool()[2].id@[0] != "pct_move_speed"@[0]);
    assert(spec_affix_pool()[3].id@[0] != "pct_move_speed"@[0]);
    assert(spec_affix_pool()[4].id@[0] != "pct_move_speed"@[0]);
    assert(spec_affix_pool()[5].id@[4] != "pct_move_speed"@[4]);
    lemma_find_id_first(spec_affix_pool(), "pct_move_speed"@, 0, 6);
    lemma_find_id_concat(spec_affix_pool(), spec_resonance_pool(), spec_rift_touched_pool(), "pct_cooldown"@);
    lemma_find_id_concat(spec_affix_pool(), spec_resonance_pool(), spec_rift_touched_pool(), "flat_armor"@);
    lemma_find_id_concat(spec_affix_pool(), spec_resonance_pool(), spec_rift_touched_pool(), "flat_health"@);
    lemma_find_id_concat(spec_affix_pool(), spec_resonance_pool(), spec_rift_touched_pool(), "pct_crit_chance"@);
    lemma_find_id_concat(spec_affix_pool(), spec_resonance_pool(), spec_rift_touched_pool(), "pct_crit_damage"@);
    lemma_find_id_concat(spec_affix_pool(), spec_resonance_pool(), spec_rift_touched_pool(), "pct_move_speed"@);
}

} // verus!

//! Abilities — identities, wire ids, and the discrete columns of the
//! ability registry (element, shape, scaling bucket, unlock level).

pub mod id;

use vstd::prelude::*;

verus! {

/// Opaque identifier for an ability, used as an identity token.
#[derive(Clone, Copy, Debug, PartialEq, Eq, Hash)]
pub struct AbilityId(pub &'static str);

/// Stable wire / persistence byte for an ability (see [`id`]).
#[derive(Clone, Copy, Debug, Default, PartialEq, Eq, Hash, PartialOrd, Ord, Structural)]
pub struct AbilityWireId(pub u8);

impl AbilityWireId {
    /// Wrap a raw wire byte.
    pub fn new(byte: u8) -> (r: Self)
        ensures
            r.0 == byte,
    {
        AbilityWireId(byte)
    }

    /// Raw wire byte.
    pub fn raw(self) -> (r: u8)
        ensures
            r == self.0,
    {
        self.0
    }
}

/// A raw wire byte as an ability id.
impl From<u8> for AbilityWireId {
    fn from(b: u8) -> (r: Self) {
        AbilityWireId(b)
    }
}

impl vstd::std_specs::convert::FromSpecImpl<u8> for AbilityWireId {
    open spec fn obeys_from_spec() -> bool {
        true
    }

    open spec fn from_spec(b: u8) -> AbilityWireId {
        AbilityWireId(b)
    }
}

/// An ability id's raw wire byte.
impl From<AbilityWireId> for u8 {
    fn from(id: AbilityWireId) -> (r: u8) {
        id.0
    }
}

impl vstd::std_specs::convert::FromSpecImpl<AbilityWireId> for u8 {
    open spec fn obeys_from_spec() -> bool {
        true
    }

    open spec fn from_spec(id: AbilityWireId) -> u8 {
        id.0
    }
}

/// Damage element of an ability; `Untyped` for utility abilities that
/// carry no damage.
#[derive(Clone, Copy, Debug, PartialEq, Eq, Hash, Structural)]
pub enum Element {
    Physical,
    Fire,
    Ice,
    Lightning,
    /// No element (utility / debuff / movement abilities).
    Untyped,
}

/// Shape of an ability.
#[derive(Clone, Copy, Debug, PartialEq, Eq, Hash, Structural)]
pub enum Archetype {
    /// Discrete projectiles (Fireball, Multi-Shot, Rapid Fire).
    Projectile,
    /// Sustained beam channel (Frost Ray).
    Beam,
    /// Persistent or instant area-of-effect (Rain of Fire).
    Aoe,
    /// Self-centred melee aura (Whirlwind).
    Melee,
    /// Pure movement (Evasive Roll).
    Movement,
    /// Utility / debuff that doesn't fit a damage shape.
    Utility,
}

/// Spellbook-side grouping, derived from element and shape. `All` is
/// the "show everything" tab and is never an ability's category.
#[derive(Clone, Copy, Debug, PartialEq, Eq, Hash, Structural)]
pub enum Category {
    All,
    Fire,
    Cold,
    Lightning,
    Physical,
    Utility,
}

impl Category {
    pub open spec fn spec_label(self) -> &'static str {
        match self {
            Category::All => "All",
            Category::Fire => "Fire",
            Category::Cold => "Cold",
            Category::Lightning => "Lightning",
            Category::Physical => "Physical",
            Category::Utility => "Utility",
        }
    }

    /// Display label for the category tab.
    pub fn label(self) -> (r: &'static str)
        ensures
            r == self.spec_label(),
    {
        match self {
            Category::All => "All",
            Category::Fire => "Fire",
            Category::Cold => "Cold",
            Category::Lightning => "Lightning",
            Category::Physical => "Physical",
            Category::Utility => "Utility",
        }
    }

    /// Iteration order for the spellbook left-rail: `All` first, then
    /// the elemental columns, then physical, then the catch-all.
    pub fn all() -> (r: &'static [Category])
        ensures
            r@ == seq![
                Category::All,
                Category::Fire,
                Category::Cold,
                Category::Lightning,
                Category::Physical,
                Category::Utility,
            ],
    {
        let r: &'static [Category] = &[
            Category::All,
            Category::Fire,
            Category::Cold,
            Category::Lightning,
            Category::Physical,
            Category::Utility,
        ];
        assert(r@ == seq![
            Category::All,
            Category::Fire,
            Category::Cold,
            Category::Lightning,
            Category::Physical,
            Category::Utility,
        ]);
        r
    }
}

/// Spellbook category of an ability with this element and shape:
/// the element decides for the four damaging columns; physical
/// movement / utility and element-less abilities are Utility.
pub open spec fn spec_category(element: Element, archetype: Archetype) -> Category {
    match element {
        Element::Fire => Category::Fire,
        Element::Ice => Category::Cold,
        Element::Lightning => Category::Lightning,
        Element::Physical => match archetype {
            Archetype::Movement | Archetype::Utility => Category::Utility,
            _ => Category::Physical,
        },
        Element::Untyped => Category::Utility,
    }
}

/// Which damage-bucket stat the ability scales with.
#[derive(Clone, Copy, Debug, PartialEq, Eq, Hash, Structural)]
pub enum Scaling {
    /// Physical / martial.
    Weapon,
    /// Magical.
    Spell,
    /// No bucket scaling (utility / movement).
    Unscaled,
}

/// Projectile mesh families.
#[derive(Clone, Copy, Debug, PartialEq, Eq, Structural)]
pub enum MeshKind {
    Fireball,
    ArcaneBolt,
}

/// Per-ability sound recipe: optional cast, travel and impact clips.
#[derive(Clone, Copy, Debug, Default)]
pub struct AbilityAudio {
    pub cast: Option<&'static str>,
    pub travel: Option<&'static str>,
    pub impact: Option<&'static str>,
}

impl AbilityAudio {
    /// The silent recipe.
    pub fn silent() -> (r: Self)
        ensures
            r.cast is None && r.travel is None && r.impact is None,
    {
        AbilityAudio { cast: None, travel: None, impact: None }
    }
}

/// What casting an ability does: the kind of effect, with its counts.
/// (Speeds, radii and timings are host-side tuning.)
#[derive(Clone, Copy, Debug, PartialEq, Eq, Structural)]
pub enum AbilityShape {
    /// A fan of `count` projectiles along the aim direction.
    Projectiles { count: u32 },
    /// A persistent area zone at the placed target.
    AoeZone,
    /// A channelled effect fired every tick while held.
    Channel,
    /// Visual / movement only on the client.
    ClientOnly,
    /// Enemy-cast projectiles that damage players.
    EnemyProjectiles { count: u32 },
    /// A telegraphed area that lands after a windup.
    DelayedAoe,
    /// Summons `count` monsters.
    Summon { count: u32 },
    /// Summons a player-owned minion.
    MinionSummon,
    /// A melee arc in front of the caster.
    MeleeArc,
    /// A direct heal on a target.
    HealTarget,
    /// A heal-over-time on a target.
    HealOverTimeTarget,
}

/// The discrete columns of one ability-registry row.
#[derive(Clone, Copy, Debug)]
pub struct AbilityRow {
    pub id: AbilityId,
    pub wire_id: AbilityWireId,
    pub name: &'static str,
    /// Level at which this ability unlocks.
    pub unlock_level: u32,
    /// Cooldown in milliseconds (0 for abilities without one).
    pub cooldown_ms: u32,
    /// What casting the ability does, by kind.
    pub shape: AbilityShape,
    pub element: Element,
    pub archetype: Archetype,
    pub scaling: Scaling,
}

impl AbilityRow {
    /// Projectiles one cast spawns (0 for shapes that spawn none).
    pub fn projectile_count(&self) -> (r: u32)
        ensures
            r == match self.shape {
                AbilityShape::Projectiles { count } | AbilityShape::EnemyProjectiles { count } => count,
                _ => 0,
            },
    {
        match self.shape {
            AbilityShape::Projectiles { count } | AbilityShape::EnemyProjectiles { count } => count,
            _ => 0,
        }
    }

    /// Spellbook category of this ability.
    pub fn category(&self) -> (r: Category)
        ensures
            r == spec_category(self.element, self.archetype),
    {
        match self.element {
            Element::Fire => Category::Fire,
            Element::Ice => Category::Cold,
            Element::Lightning => Category::Lightning,
            Element::Physical => match self.archetype {
                Archetype::Movement | Archetype::Utility => Category::Utility,
                _ => Category::Physical,
            },
            Element::Untyped => Category::Utility,
        }
    }
}

/// Number of rows in the ability registry.
pub const REGISTRY_LEN: usize = 25;

/// The ability registry, row by row.
pub open spec fn spec_registry_row(i: int) -> AbilityRow {
    if i == 0 {
        AbilityRow {
            id: AbilityId("fire_ball"),
            wire_id: AbilityWireId(id::FIRE_BALL),
            name: "Fireball",
            unlock_level: 1,
            cooldown_ms: 500,
            shape: AbilityShape::Projectiles { count: 1 },
            element: Element::Fire,
            archetype: Archetype::Projectile,
            scaling: Scaling::Spell,
        }
    } else if i == 1 {
        AbilityRow {
            id: AbilityId("fireball_volley"),
            wire_id: AbilityWireId(id::FIREBALL_VOLLEY),
            name: "Fireball Volley",
            unlock_level: 3,
            cooldown_ms: 4000,
            shape: AbilityShape::Projectiles { count: 3 },
            element: Element::Fire,
            archetype: Archetype::Projectile,
            scaling: Scaling::Spell,
        }
    } else if i == 2 {
        AbilityRow {
            id: AbilityId("rapid_fire"),
            wire_id: AbilityWireId(id::RAPID_FIRE),
            name: "Rapid Fire",
            unlock_level: 7,
            cooldown_ms: 8000,
            shape: AbilityShape::Projectiles { count: 6 },
            element: Element::Physical,
            archetype: Archetype::Projectile,
            scaling: Scaling::Weapon,
        }
    } else if i == 3 {
        AbilityRow {
            id: AbilityId("rain_of_arrows"),
            wire_id: AbilityWireId(id::RAIN_OF_ARROWS),
            name: "Rain of Fire",
            unlock_level: 12,
            cooldown_ms: 12000,
            shape: AbilityShape::AoeZone,
            element: Element::Fire,
            archetype: Archetype::Aoe,
            scaling: Scaling::Spell,
        }
    } else if i == 4 {
        AbilityRow {
            id: AbilityId("evasive_roll"),
            wire_id: AbilityWireId(id::EVASIVE_ROLL),
            name: "Evasive Roll",
            unlock_level: 1,
            cooldown_ms: 6000,
            shape: AbilityShape::ClientOnly,
            element: Element::Untyped,
            archetype: Archetype::Movement,
            scaling: Scaling::Unscaled,
        }
    } else if i == 5 {
        AbilityRow {
            id: AbilityId("mark_for_death"),
            wire_id: AbilityWireId(id::MARK_FOR_DEATH),
            name: "Mark for Death",
            unlock_level: 10,
            cooldown_ms: 15000,
            shape: AbilityShape::ClientOnly,
            element: Element::Untyped,
            archetype: Archetype::Utility,
            scaling: Scaling::Unscaled,
        }
    } else if i == 6 {
        AbilityRow {
            id: AbilityId("frost_ray"),
            wire_id: AbilityWireId(id::FROST_RAY),
            name: "Frost Ray",
            unlock_level: 1,
            cooldown_ms: 0,
            shape: AbilityShape::Channel,
            element: Element::Ice,
            archetype: Archetype::Beam,
            scaling: Scaling::Spell,
        }
    } else if i == 7 {
        AbilityRow {
            id: AbilityId("frost_shatter_shard"),
            wire_id: AbilityWireId(id::FROST_SHATTER_SHARD),
            name: "Frost Shard",
            unlock_level: 1,
            cooldown_ms: 0,
            shape: AbilityShape::Projectiles { count: 1 },
            element: Element::Ice,
            archetype: Archetype::Projectile,
            scaling: Scaling::Spell,
        }
    } else if i == 8 {
        AbilityRow {
            id: AbilityId("melee_attack"),
            wire_id: AbilityWireId(id::MELEE_ATTACK),
            name: "Melee",
            unlock_level: 1,
            cooldown_ms: 400,
            shape: AbilityShape::MeleeArc,
            element: Element::Physical,
            archetype: Archetype::Melee,
            scaling: Scaling::Weapon,
        }
    } else if i == 9 {
        AbilityRow {
            id: AbilityId("punch"),
            wire_id: AbilityWireId(id::PUNCH),
            name: "Punch",
            unlock_level: 0,
            cooldown_ms: 750,
            shape: AbilityShape::MeleeArc,
            element: Element::Physical,
            archetype: Archetype::Melee,
            scaling: Scaling::Weapon,
        }
    } else if i == 10 {
        AbilityRow {
            id: AbilityId("void_familiar"),
            wire_id: AbilityWireId(id::VOID_FAMILIAR),
            name: "Void Familiar",
            unlock_level: 1,
            cooldown_ms: 18000,
            shape: AbilityShape::MinionSummon,
            element: Element::Untyped,
            archetype: Archetype::Utility,
            scaling: Scaling::Unscaled,
        }
    } else if i == 11 {
        AbilityRow {
            id: AbilityId("void_familiar_bolt"),
            wire_id: AbilityWireId(id::VOID_FAMILIAR_BOLT),
            name: "Void Familiar Bolt",
            unlock_level: 0,
            cooldown_ms: 0,
            shape: AbilityShape::Projectiles { count: 1 },
            element: Element::Lightning,
            archetype: Archetype::Projectile,
            scaling: Scaling::Unscaled,
        }
    } else if i == 12 {
        AbilityRow {
            id: AbilityId("fireball_beam"),
            wire_id: AbilityWireId(id::FIREBALL_BEAM),
            name: "Fireball Beam",
            unlock_level: 1,
            cooldown_ms: 0,
            shape: AbilityShape::Channel,
            element: Element::Fire,
            archetype: Archetype::Beam,
            scaling: Scaling::Spell,
        }
    } else if i == 13 {
        AbilityRow {
            id: AbilityId("whirlwind"),
            wire_id: AbilityWireId(id::WHIRLWIND),
            name: "Whirlwind",
            unlock_level: 8,
            cooldown_ms: 9000,
            shape: AbilityShape::Channel,
            element: Element::Physical,
            archetype: Archetype::Melee,
            scaling: Scaling::Weapon,
        }
    } else if i == 14 {
        AbilityRow {
            id: AbilityId("fire_wave"),
            wire_id: AbilityWireId(id::FIRE_WAVE),
            name: "Fire Wave",
            unlock_level: 4,
            cooldown_ms: 7000,
            shape: AbilityShape::Channel,
            element: Element::Fire,
            archetype: Archetype::Aoe,
            scaling: Scaling::Spell,
        }
    } else if i == 15 {
        AbilityRow {
            id: AbilityId("heal_target"),
            wire_id: AbilityWireId(id::HEAL_TARGET),
            name: "Heal",
            unlock_level: 1,
            cooldown_ms: 8000,
            shape: AbilityShape::HealTarget,
            element: Element::Untyped,
            archetype: Archetype::Aoe,
            scaling: Scaling::Spell,
        }
    } else if i == 16 {
        AbilityRow {
            id: AbilityId("heal_over_time_target"),
            wire_id: AbilityWireId(id::HEAL_OVER_TIME_TARGET),
            name: "Rejuvenation",
            unlock_level: 1,
            cooldown_ms: 14000,
            shape: AbilityShape::HealOverTimeTarget,
            element: Element::Untyped,
            archetype: Archetype::Aoe,
            scaling: Scaling::Spell,
        }
    } else if i == 17 {
        AbilityRow {
            id: AbilityId("arcane_bolt"),
            wire_id: AbilityWireId(id::ARCANE_BOLT),
            name: "Arcane Bolt",
            unlock_level: 0,
            cooldown_ms: 2400,
            shape: AbilityShape::EnemyProjectiles { count: 1 },
            element: Element::Untyped,
            archetype: Archetype::Projectile,
            scaling: Scaling::Unscaled,
        }
    } else if i == 18 {
        AbilityRow {
            id: AbilityId("arcane_fan"),
            wire_id: AbilityWireId(id::ARCANE_FAN),
            name: "Arcane Fan",
            unlock_level: 0,
            cooldown_ms: 4000,
            shape: AbilityShape::EnemyProjectiles { count: 7 },
            element: Element::Untyped,
            archetype: Archetype::Projectile,
            scaling: Scaling::Unscaled,
        }
    } else if i == 19 {
        AbilityRow {
            id: AbilityId("ground_slam"),
            wire_id: AbilityWireId(id::GROUND_SLAM),
            name: "Ground Slam",
            unlock_level: 0,
            cooldown_ms: 3200,
            shape: AbilityShape::DelayedAoe,
            element: Element::Physical,
            archetype: Archetype::Aoe,
            scaling: Scaling::Unscaled,
        }
    } else if i == 20 {
        AbilityRow {
            id: AbilityId("summon_brutes"),
            wire_id: AbilityWireId(id::SUMMON_BRUTES),
            name: "Summon Brutes",
            unlock_level: 0,
            cooldown_ms: 10000,
            shape: AbilityShape::Summon { count: 4 },
            element: Element::Untyped,
            archetype: Archetype::Utility,
            scaling: Scaling::Unscaled,
        }
    } else if i == 21 {
        AbilityRow {
            id: AbilityId("wraith_scream"),
            wire_id: AbilityWireId(id::WRAITH_SCREAM),
            name: "Wraith Scream",
            unlock_level: 0,
            cooldown_ms: 3200,
            shape: AbilityShape::ClientOnly,
            element: Element::Untyped,
            archetype: Archetype::Aoe,
            scaling: Scaling::Unscaled,
        }
    } else if i == 22 {
        AbilityRow {
            id: AbilityId("void_sigil"),
            wire_id: AbilityWireId(id::VOID_SIGIL),
            name: "Void Sigil",
            unlock_level: 0,
            cooldown_ms: 4800,
            shape: AbilityShape::DelayedAoe,
            element: Element::Untyped,
            archetype: Archetype::Aoe,
            scaling: Scaling::Unscaled,
        }
    } else if i == 23 {
        AbilityRow {
            id: AbilityId("ground_slam_windup"),
            wire_id: AbilityWireId(id::GROUND_SLAM_WINDUP),
            name: "Slam (wind-up)",
            unlock_level: 0,
            cooldown_ms: 0,
            shape: AbilityShape::ClientOnly,
            element: Element::Physical,
            archetype: Archetype::Aoe,
            scaling: Scaling::Unscaled,
        }
    } else {
        AbilityRow {
            id: AbilityId("ground_slam_impact"),
            wire_id: AbilityWireId(id::GROUND_SLAM_IMPACT),
            name: "Slam (impact)",
            unlock_level: 0,
            cooldown_ms: 0,
            shape: AbilityShape::ClientOnly,
            element: Element::Physical,
            archetype: Archetype::Aoe,
            scaling: Scaling::Unscaled,
        }
    }
}

/// Row `i` of the ability registry.
pub fn registry_row(i: usize) -> (r: AbilityRow)
    requires
        i < REGISTRY_LEN,
    ensures
        r == spec_registry_row(i as int),
{
    if i == 0 {
        AbilityRow {
            id: AbilityId("fire_ball"),
            wire_id: AbilityWireId(id::FIRE_BALL),
            name: "Fireball",
            unlock_level: 1,
            cooldown_ms: 500,
            shape: AbilityShape::Projectiles { count: 1 },
            element: Element::Fire,
            archetype: Archetype::Projectile,
            scaling: Scaling::Spell,
        }
    } else if i == 1 {
        AbilityRow {
            id: AbilityId("fireball_volley"),
            wire_id: AbilityWireId(id::FIREBALL_VOLLEY),
            name: "Fireball Volley",
            unlock_level: 3,
            cooldown_ms: 4000,
            shape: AbilityShape::Projectiles { count: 3 },
            element: Element::Fire,
            archetype: Archetype::Projectile,
            scaling: Scaling::Spell,
        }
    } else if i == 2 {
        AbilityRow {
            id: AbilityId("rapid_fire"),
            wire_id: AbilityWireId(id::RAPID_FIRE),
            name: "Rapid Fire",
            unlock_level: 7,
            cooldown_ms: 8000,
            shape: AbilityShape::Projectiles { count: 6 },
            element: Element::Physical,
            archetype: Archetype::Projectile,
            scaling: Scaling::Weapon,
        }
    } else if i == 3 {
        AbilityRow {
            id: AbilityId("rain_of_arrows"),
            wire_id: AbilityWireId(id::RAIN_OF_ARROWS),
            name: "Rain of Fire",
            unlock_level: 12,
            cooldown_ms: 12000,
            shape: AbilityShape::AoeZone,
            element: Element::Fire,
            archetype: Archetype::Aoe,
            scaling: Scaling::Spell,
        }
    } else if i == 4 {
        AbilityRow {
            id: AbilityId("evasive_roll"),
            wire_id: AbilityWireId(id::EVASIVE_ROLL),
            name: "Evasive Roll",
            unlock_level: 1,
            cooldown_ms: 6000,
            shape: AbilityShape::ClientOnly,
            element: Element::Untyped,
            archetype: Archetype::Movement,
            scaling: Scaling::Unscaled,
        }
    } else if i == 5 {
        AbilityRow {
            id: AbilityId("mark_for_death"),
            wire_id: AbilityWireId(id::MARK_FOR_DEATH),
            name: "Mark for Death",
            unlock_level: 10,
            cooldown_ms: 15000,
            shape: AbilityShape::ClientOnly,
            element: Element::Untyped,
            archetype: Archetype::Utility,
            scaling: Scaling::Unscaled,
        }
    } else if i == 6 {
        AbilityRow {
            id: AbilityId("frost_ray"),
            wire_id: AbilityWireId(id::FROST_RAY),
            name: "Frost Ray",
            unlock_level: 1,
            cooldown_ms: 0,
            shape: AbilityShape::Channel,
            element: Element::Ice,
            archetype: Archetype::Beam,
            scaling: Scaling::Spell,
        }
    } else if i == 7 {
        AbilityRow {
            id: AbilityId("frost_shatter_shard"),
            wire_id: AbilityWireId(id::FROST_SHATTER_SHARD),
            name: "Frost Shard",
            unlock_level: 1,
            cooldown_ms: 0,
            shape: AbilityShape::Projectiles { count: 1 },
            element: Element::Ice,
            archetype: Archetype::Projectile,
            scaling: Scaling::Spell,
        }
    } else if i == 8 {
        AbilityRow {
            id: AbilityId("melee_attack"),
            wire_id: AbilityWireId(id::MELEE_ATTACK),
            name: "Melee",
            unlock_level: 1,
            cooldown_ms: 400,
            shape: AbilityShape::MeleeArc,
            element: Element::Physical,
            archetype: Archetype::Melee,
            scaling: Scaling::Weapon,
        }
    } else if i == 9 {
        AbilityRow {
            id: AbilityId("punch"),
            wire_id: AbilityWireId(id::PUNCH),
            name: "Punch",
            unlock_level: 0,
            cooldown_ms: 750,
            shape: AbilityShape::MeleeArc,
            element: Element::Physical,
            archetype: Archetype::Melee,
            scaling: Scaling::Weapon,
        }
    } else if i == 10 {
        AbilityRow {
            id: AbilityId("void_familiar"),
            wire_id: AbilityWireId(id::VOID_FAMILIAR),
            name: "Void Familiar",
            unlock_level: 1,
            cooldown_ms: 18000,
            shape: AbilityShape::MinionSummon,
            element: Element::Untyped,
            archetype: Archetype::Utility,
            scaling: Scaling::Unscaled,
        }
    } else if i == 11 {
        AbilityRow {
            id: AbilityId("void_familiar_bolt"),
            wire_id: AbilityWireId(id::VOID_FAMILIAR_BOLT),
            name: "Void Familiar Bolt",
            unlock_level: 0,
            cooldown_ms: 0,
            shape: AbilityShape::Projectiles { count: 1 },
            element: Element::Lightning,
            archetype: Archetype::Projectile,
            scaling: Scaling::Unscaled,
        }
    } else if i == 12 {
        AbilityRow {
            id: AbilityId("fireball_beam"),
            wire_id: AbilityWireId(id::FIREBALL_BEAM),
            name: "Fireball Beam",
            unlock_level: 1,
            cooldown_ms: 0,
            shape: AbilityShape::Channel,
            element: Element::Fire,
            archetype: Archetype::Beam,
            scaling: Scaling::Spell,
        }
    } else if i == 13 {
        AbilityRow {
            id: AbilityId("whirlwind"),
            wire_id: AbilityWireId(id::WHIRLWIND),
            name: "Whirlwind",
            unlock_level: 8,
            cooldown_ms: 9000,
            shape: AbilityShape::Channel,
            element: Element::Physical,
            archetype: Archetype::Melee,
            scaling: Scaling::Weapon,
        }
    } else if i == 14 {
        AbilityRow {
            id: AbilityId("fire_wave"),
            wire_id: AbilityWireId(id::FIRE_WAVE),
            name: "Fire Wave",
            unlock_level: 4,
            cooldown_ms: 7000,
            shape: AbilityShape::Channel,
            element: Element::Fire,
            archetype: Archetype::Aoe,
            scaling: Scaling::Spell,
        }
    } else if i == 15 {
        AbilityRow {
            id: AbilityId("heal_target"),
            wire_id: AbilityWireId(id::HEAL_TARGET),
            name: "Heal",
            unlock_level: 1,
            cooldown_ms: 8000,
            shape: AbilityShape::HealTarget,
            element: Element::Untyped,
            archetype: Archetype::Aoe,
            scaling: Scaling::Spell,
        }
    } else if i == 16 {
        AbilityRow {
            id: AbilityId("heal_over_time_target"),
            wire_id: AbilityWireId(id::HEAL_OVER_TIME_TARGET),
            name: "Rejuvenation",
            unlock_level: 1,
            cooldown_ms: 14000,
            shape: AbilityShape::HealOverTimeTarget,
            element: Element::Untyped,
            archetype: Archetype::Aoe,
            scaling: Scaling::Spell,
        }
    } else if i == 17 {
        AbilityRow {
            id: AbilityId("arcane_bolt"),
            wire_id: AbilityWireId(id::ARCANE_BOLT),
            name: "Arcane Bolt",
            unlock_level: 0,
            cooldown_ms: 2400,
            shape: AbilityShape::EnemyProjectiles { count: 1 },
            element: Element::Untyped,
            archetype: Archetype::Projectile,
            scaling: Scaling::Unscaled,
        }
    } else if i == 18 {
        AbilityRow {
            id: AbilityId("arcane_fan"),
            wire_id: AbilityWireId(id::ARCANE_FAN),
            name: "Arcane Fan",
            unlock_level: 0,
            cooldown_ms: 4000,
            shape: AbilityShape::EnemyProjectiles { count: 7 },
            element: Element::Untyped,
            archetype: Archetype::Projectile,
            scaling: Scaling::Unscaled,
        }
    } else if i == 19 {
        AbilityRow {
            id: AbilityId("ground_slam"),
            wire_id: AbilityWireId(id::GROUND_SLAM),
            name: "Ground Slam",
            unlock_level: 0,
            cooldown_ms: 3200,
            shape: AbilityShape::DelayedAoe,
            element: Element::Physical,
            archetype: Archetype::Aoe,
            scaling: Scaling::Unscaled,
        }
    } else if i == 20 {
        AbilityRow {
            id: AbilityId("summon_brutes"),
            wire_id: AbilityWireId(id::SUMMON_BRUTES),
            name: "Summon Brutes",
            unlock_level: 0,
            cooldown_ms: 10000,
            shape: AbilityShape::Summon { count: 4 },
            element: Element::Untyped,
            archetype: Archetype::Utility,
            scaling: Scaling::Unscaled,
        }
    } else if i == 21 {
        AbilityRow {
            id: AbilityId("wraith_scream"),
            wire_id: AbilityWireId(id::WRAITH_SCREAM),
            name: "Wraith Scream",
            unlock_level: 0,
            cooldown_ms: 3200,
            shape: AbilityShape::ClientOnly,
            element: Element::Untyped,
            archetype: Archetype::Aoe,
            scaling: Scaling::Unscaled,
        }
    } else if i == 22 {
        AbilityRow {
            id: AbilityId("void_sigil"),
            wire_id: AbilityWireId(id::VOID_SIGIL),
            name: "Void Sigil",
            unlock_level: 0,
            cooldown_ms: 4800,
            shape: AbilityShape::DelayedAoe,
            element: Element::Untyped,
            archetype: Archetype::Aoe,
            scaling: Scaling::Unscaled,
        }
    } else if i == 23 {
        AbilityRow {
            id: AbilityId("ground_slam_windup"),
            wire_id: AbilityWireId(id::GROUND_SLAM_WINDUP),
            name: "Slam (wind-up)",
            unlock_level: 0,
            cooldown_ms: 0,
            shape: AbilityShape::ClientOnly,
            element: Element::Physical,
            archetype: Archetype::Aoe,
            scaling: Scaling::Unscaled,
        }
    } else {
        AbilityRow {
            id: AbilityId("ground_slam_impact"),
            wire_id: AbilityWireId(id::GROUND_SLAM_IMPACT),
            name: "Slam (impact)",
            unlock_level: 0,
            cooldown_ms: 0,
            shape: AbilityShape::ClientOnly,
            element: Element::Physical,
            archetype: Archetype::Aoe,
            scaling: Scaling::Unscaled,
        }
    }
}

/// The first registry row at or after `from` whose wire id is `wire`.
pub open spec fn spec_find_wire(wire: AbilityWireId, from: int) -> Option<AbilityRow>
    decreases REGISTRY_LEN - from,
{
    if from < 0 || from >= REGISTRY_LEN {
        None
    } else if spec_registry_row(from).wire_id == wire {
        Some(spec_registry_row(from))
    } else {
        spec_find_wire(wire, from + 1)
    }
}

/// The registry row whose wire id is `wire`, if any.
pub open spec fn spec_lookup(wire: AbilityWireId) -> Option<AbilityRow> {
    spec_find_wire(wire, 0)
}

/// Look up an ability by its wire id (linear scan over the registry).
pub fn lookup(wire: AbilityWireId) -> (r: Option<AbilityRow>)
    ensures
        r == spec_lookup(wire),
{
    let mut i: usize = 0;
    while i < REGISTRY_LEN
        invariant
            i <= REGISTRY_LEN,
            spec_find_wire(wire, 0) == spec_find_wire(wire, i as int),
        decreases REGISTRY_LEN - i,
    {
        let row = registry_row(i);
        if row.wire_id == wire {
            return Some(row);
        }
        i = i + 1;
    }
    None
}

/// The first registry row at or after `from` whose id is `id`.
pub open spec fn spec_find_by_id(id: Seq<char>, from: int) -> Option<AbilityRow>
    decreases REGISTRY_LEN - from,
{
    if from < 0 || from >= REGISTRY_LEN {
        None
    } else if spec_registry_row(from).id.0@ == id {
        Some(spec_registry_row(from))
    } else {
        spec_find_by_id(id, from + 1)
    }
}

/// Look up an ability by its string identity token.
pub fn lookup_by_id(id: AbilityId) -> (r: Option<AbilityRow>)
    ensures
        r == spec_find_by_id(id.0@, 0),
{
    let mut i: usize = 0;
    while i < REGISTRY_LEN
        invariant
            i <= REGISTRY_LEN,
            spec_find_by_id(id.0@, 0) == spec_find_by_id(id.0@, i as int),
        decreases REGISTRY_LEN - i,
    {
        let row = registry_row(i);
        if crate::text::str_eq(row.id.0, id.0) {
            return Some(row);
        }
        i = i + 1;
    }
    None
}

/// Number of slots on the action bar.
pub const BAR_SLOTS: usize = 6;

/// The action bar's six ability slots plus the passive roll slot, each
/// holding the registry row of its ability. Cooldown timers run on the
/// host, keyed by these rows.
pub struct AbilityBar {
    pub slots: [Option<AbilityRow>; 6],
    /// The passive dodge bound to its own key; the evasive roll
    /// whenever the registry has it.
    pub roll: Option<AbilityRow>,
}

impl AbilityBar {
    /// An empty bar with the evasive roll in the roll slot.
    pub fn new() -> (r: Self)
        ensures
            forall|i: int| 0 <= i < BAR_SLOTS ==> #[trigger] r.slots@[i] is None,
            r.roll == spec_lookup(AbilityWireId(id::EVASIVE_ROLL)),
    {
        let roll = lookup(AbilityWireId(id::EVASIVE_ROLL));
        AbilityBar { slots: [None, None, None, None, None, None], roll }
    }

    /// Put `row` in slot `index`; an out-of-range index changes nothing.
    pub fn set(&mut self, index: usize, row: AbilityRow)
        ensures
            index < BAR_SLOTS ==> final(self).slots@ == old(self).slots@.update(index as int, Some(row)),
            index >= BAR_SLOTS ==> final(self).slots@ == old(self).slots@,
            final(self).roll == old(self).roll,
    {
        if index < BAR_SLOTS {
            let mut v = Some(row);
            std::mem::swap(&mut self.slots[index], &mut v);
        }
    }
}

} // verus!

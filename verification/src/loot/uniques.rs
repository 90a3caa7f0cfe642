//! Named **Unique** items — hand-authored Legendaries.
//!
//! A Legendary drop whose `(equip_slot, base)` matches a [`UniqueDef`]
//! adopts the unique's [`LegendaryEffect`] instead of a procedural
//! legendary affix, and stamps the unique's stable `id` on the item.
//! Chances and explosion sizes are written in thousandths.

use vstd::prelude::*;

use crate::abilities::AbilityId;
use super::affixes::{AbilityVariant, ProcAction, ProcEvent};
use super::families::Element;
use super::items::{BaseItem, EquipSlot, ItemSlot, WeaponKind};

verus! {

/// Concrete legendary effect attached to an item.
#[derive(Clone, Copy, Debug)]
pub enum LegendaryEffect {
    /// Reskin `ability` with the named variant.
    Transform { ability: AbilityId, variant: AbilityVariant },
    /// Register a proc with an authored chance (thousandths).
    Proc { event: ProcEvent, action: ProcAction, chance: u32 },
    /// Add `count` projectiles to the ability's fan.
    ExtraProjectiles { ability: AbilityId, count: u32 },
    /// One-off effect matched directly by the combat layer.
    Bespoke(BespokeId),
}

/// One-off legendary effects that don't reduce to a generic pattern.
#[derive(Clone, Copy, Debug, PartialEq, Eq, Hash, Structural)]
pub enum BespokeId {
    /// The wearer's evasive roll bypasses its cooldown gate.
    MirrorglassFreeRoll,
}

/// How a pool unique turns its sampled ability into an effect.
#[derive(Clone, Copy, Debug, PartialEq, Eq, Structural)]
pub enum PoolEffect {
    /// On hit, cast the sampled ability for free, 10 % of the time.
    MirrorglassProc,
}

/// How the unique's effect is selected at roll time.
#[derive(Clone, Copy, Debug)]
pub enum UniqueRoll {
    /// Authored effect — no per-instance variation.
    Fixed(LegendaryEffect),
    /// Pick one ability from `pool` at roll time; the item keeps the
    /// index, and `make` turns the picked ability into the effect.
    Pool { pool: &'static [AbilityId], make: PoolEffect },
}

/// Which bases of the targeted slot a unique accepts.
#[derive(Clone, Copy, Debug, PartialEq, Eq, Structural)]
pub enum BaseMatch {
    AnyHelm,
    AnyBoots,
    AnyAmulet,
    /// Wands only.
    AnyWand,
    /// Staves whose family can roll Ice.
    IceStaff,
}

/// One authored unique.
#[derive(Clone, Copy, Debug)]
pub struct UniqueDef {
    /// Stable string id — persisted on the item, never reused.
    pub id: &'static str,
    /// Authored display name.
    pub name: &'static str,
    /// Slot the unique targets.
    pub equip_slot: EquipSlot,
    /// Rule over the candidate base.
    pub matches_base: BaseMatch,
    /// Effect generator — `Fixed` or `Pool`.
    pub roll: UniqueRoll,
    /// One-line flavour text.
    pub flavor: &'static str,
}

/// Whether a base passes a unique's base rule.
pub open spec fn spec_base_matches(m: BaseMatch, b: BaseItem) -> bool {
    match m {
        BaseMatch::AnyHelm | BaseMatch::AnyBoots | BaseMatch::AnyAmulet => true,
        BaseMatch::AnyWand => b.slot == ItemSlot::Weapon(WeaponKind::Wand),
        BaseMatch::IceStaff => b.slot == ItemSlot::Weapon(WeaponKind::Staff)
            && b.family.spec_allows_element(Element::Ice),
    }
}

/// Whether a base passes a unique's base rule.
pub fn base_matches(m: BaseMatch, b: &BaseItem) -> (r: bool)
    ensures
        r == spec_base_matches(m, *b),
{
    match m {
        BaseMatch::AnyHelm | BaseMatch::AnyBoots | BaseMatch::AnyAmulet => true,
        BaseMatch::AnyWand => b.slot == ItemSlot::Weapon(WeaponKind::Wand),
        BaseMatch::IceStaff => b.slot == ItemSlot::Weapon(WeaponKind::Staff)
            && b.family.allows_element(Element::Ice),
    }
}

/// The effect a pool unique builds from its sampled ability.
pub open spec fn spec_pool_effect(make: PoolEffect, ability: AbilityId) -> LegendaryEffect {
    match make {
        PoolEffect::MirrorglassProc => LegendaryEffect::Proc {
            event: ProcEvent::OnHit,
            action: ProcAction::CastAbility(ability),
            chance: 100,
        },
    }
}

fn pool_effect(make: PoolEffect, ability: AbilityId) -> (r: LegendaryEffect)
    ensures
        r == spec_pool_effect(make, ability),
{
    match make {
        PoolEffect::MirrorglassProc => LegendaryEffect::Proc {
            event: ProcEvent::OnHit,
            action: ProcAction::CastAbility(ability),
            chance: 100,
        },
    }
}

/// The damage abilities Mirrorglass samples its on-hit proc from.
pub open spec fn spec_mirrorglass_pool() -> Seq<AbilityId> {
    seq![AbilityId("fire_ball"), AbilityId("fireball_volley"), AbilityId("frost_ray")]
}

pub fn mirrorglass_pool() -> (r: &'static [AbilityId])
    ensures
        r@ == spec_mirrorglass_pool(),
{
    let r: &'static [AbilityId] = &[AbilityId("fire_ball"), AbilityId("fireball_volley"), AbilityId("frost_ray")];
    assert(r@ =~= spec_mirrorglass_pool());
    r
}

/// Number of authored uniques.
pub const UNIQUE_COUNT: usize = 5;

/// The authored uniques, in lookup order.
pub open spec fn spec_uniques() -> Seq<UniqueDef> {
    seq![
        UniqueDef {
            id: "embercrown",
            name: "Embercrown",
            equip_slot: EquipSlot::Helm,
            matches_base: BaseMatch::AnyHelm,
            roll: UniqueRoll::Fixed(LegendaryEffect::Transform {
                ability: AbilityId("fire_ball"),
                variant: AbilityVariant::FireballToBeam,
            }),
            flavor: "The fire forgets it was ever a stone.",
        },
        UniqueDef {
            id: "splinterstep",
            name: "Splinterstep",
            equip_slot: EquipSlot::Boots,
            matches_base: BaseMatch::AnyBoots,
            roll: UniqueRoll::Fixed(LegendaryEffect::Proc {
                event: ProcEvent::OnDodge,
                action: ProcAction::Explosion { radius: 3500, damage: 40000 },
                chance: 1000,
            }),
            flavor: "Every step a shrapnel of glass.",
        },
        UniqueDef {
            id: "cleavebreaker",
            name: "Cleavebreaker",
            equip_slot: EquipSlot::Weapon,
            matches_base: BaseMatch::AnyWand,
            roll: UniqueRoll::Fixed(LegendaryEffect::ExtraProjectiles {
                ability: AbilityId("fireball_volley"),
                count: 2,
            }),
            flavor: "The wand splits, and the world with it.",
        },
        UniqueDef {
            id: "mirrorglass_amulet",
            name: "Mirrorglass Amulet",
            equip_slot: EquipSlot::Amulet,
            matches_base: BaseMatch::AnyAmulet,
            roll: UniqueRoll::Pool { pool: vstd::array::spec_array_as_slice(&[AbilityId("fire_ball"), AbilityId("fireball_volley"), AbilityId("frost_ray")]), make: PoolEffect::MirrorglassProc },
            flavor: "What the mirror sees, the mirror returns.",
        },
        UniqueDef {
            id: "shardspire",
            name: "Shardspire",
            equip_slot: EquipSlot::Weapon,
            matches_base: BaseMatch::IceStaff,
            roll: UniqueRoll::Fixed(LegendaryEffect::Transform {
                ability: AbilityId("frost_ray"),
                variant: AbilityVariant::FrostRayShatter,
            }),
            flavor: "A spire of frozen breath, still listening.",
        },
    ]
}

/// All authored uniques.
pub fn uniques() -> (r: &'static [UniqueDef])
    ensures
        r@ == spec_uniques(),
        r@.len() == UNIQUE_COUNT,
{
    let r: &'static [UniqueDef] = &[
        UniqueDef {
            id: "embercrown",
            name: "Embercrown",
            equip_slot: EquipSlot::Helm,
            matches_base: BaseMatch::AnyHelm,
            roll: UniqueRoll::Fixed(LegendaryEffect::Transform {
                ability: AbilityId("fire_ball"),
                variant: AbilityVariant::FireballToBeam,
            }),
            flavor: "The fire forgets it was ever a stone.",
        },
        UniqueDef {
            id: "splinterstep",
            name: "Splinterstep",
            equip_slot: EquipSlot::Boots,
            matches_base: BaseMatch::AnyBoots,
            roll: UniqueRoll::Fixed(LegendaryEffect::Proc {
                event: ProcEvent::OnDodge,
                action: ProcAction::Explosion { radius: 3500, damage: 40000 },
                chance: 1000,
            }),
            flavor: "Every step a shrapnel of glass.",
        },
        UniqueDef {
            id: "cleavebreaker",
            name: "Cleavebreaker",
            equip_slot: EquipSlot::Weapon,
            matches_base: BaseMatch::AnyWand,
            roll: UniqueRoll::Fixed(LegendaryEffect::ExtraProjectiles {
                ability: AbilityId("fireball_volley"),
                count: 2,
            }),
            flavor: "The wand splits, and the world with it.",
        },
        UniqueDef {
            id: "mirrorglass_amulet",
            name: "Mirrorglass Amulet",
            equip_slot: EquipSlot::Amulet,
            matches_base: BaseMatch::AnyAmulet,
            roll: UniqueRoll::Pool { pool: &[AbilityId("fire_ball"), AbilityId("fireball_volley"), AbilityId("frost_ray")], make: PoolEffect::MirrorglassProc },
            flavor: "What the mirror sees, the mirror returns.",
        },
        UniqueDef {
            id: "shardspire",
            name: "Shardspire",
            equip_slot: EquipSlot::Weapon,
            matches_base: BaseMatch::IceStaff,
            roll: UniqueRoll::Fixed(LegendaryEffect::Transform {
                ability: AbilityId("frost_ray"),
                variant: AbilityVariant::FrostRayShatter,
            }),
            flavor: "A spire of frozen breath, still listening.",
        },
    ];
    assert(r@ =~= spec_uniques());
    r
}

impl UniqueDef {
    /// The concrete effect for this unique instance given the persisted
    /// pool-pick index: the authored effect for `Fixed` (the pick is
    /// ignored); for `Pool`, the effect of the picked ability (index 0
    /// when no pick is stored), or `None` when the index is out of range.
    pub open spec fn spec_build(&self, pick: Option<u8>) -> Option<LegendaryEffect> {
        match self.roll {
            UniqueRoll::Fixed(eff) => Some(eff),
            UniqueRoll::Pool { pool, make } => {
                let p: int = match pick {
                    Some(x) => x as int,
                    None => 0,
                };
                if p < pool@.len() {
                    Some(spec_pool_effect(make, pool@[p]))
                } else {
                    None
                }
            },
        }
    }

    pub fn build(&self, pick: Option<u8>) -> (r: Option<LegendaryEffect>)
        ensures
            r == self.spec_build(pick),
    {
        match self.roll {
            UniqueRoll::Fixed(eff) => Some(eff),
            UniqueRoll::Pool { pool, make } => {
                let p: usize = match pick {
                    Some(x) => x as usize,
                    None => 0,
                };
                if p < pool.len() {
                    Some(pool_effect(make, pool[p]))
                } else {
                    None
                }
            },
        }
    }

    /// `true` when this unique samples a pool index at roll time.
    pub open spec fn spec_needs_pick(&self) -> bool {
        self.roll is Pool
    }

    pub fn needs_pick(&self) -> (r: bool)
        ensures
            r == self.spec_needs_pick(),
    {
        match self.roll {
            UniqueRoll::Fixed(_) => false,
            UniqueRoll::Pool { .. } => true,
        }
    }

    /// Length of the pool this unique samples from (0 for `Fixed`),
    /// truncated to a byte.
    pub open spec fn spec_pool_len(&self) -> u8 {
        match self.roll {
            UniqueRoll::Fixed(_) => 0,
            UniqueRoll::Pool { pool, .. } => pool@.len() as u8,
        }
    }

    pub fn pool_len(&self) -> (r: u8)
        ensures
            r == self.spec_pool_len(),
    {
        match self.roll {
            UniqueRoll::Fixed(_) => 0,
            UniqueRoll::Pool { pool, .. } => {
                #[verifier::truncate]
                let n = pool.len() as u8;
                n
            },
        }
    }
}

/// The first unique at or after `from` whose id is `id`.
pub open spec fn spec_find_unique(list: Seq<UniqueDef>, id: Seq<char>, from: int) -> Option<UniqueDef>
    decreases list.len() - from,
{
    if from < 0 || from >= list.len() {
        None
    } else if list[from].id@ == id {
        Some(list[from])
    } else {
        spec_find_unique(list, id, from + 1)
    }
}

/// Look up a unique by its stable string id.
pub fn find(id: &str) -> (r: Option<UniqueDef>)
    ensures
        r == spec_find_unique(spec_uniques(), id@, 0),
{
    let list = uniques();
    let mut i: usize = 0;
    while i < list.len()
        invariant
            list@ == spec_uniques(),
            i <= list@.len(),
            spec_find_unique(spec_uniques(), id@, 0) == spec_find_unique(spec_uniques(), id@, i as int),
        decreases list@.len() - i,
    {
        if crate::text::str_eq(list[i].id, id) {
            return Some(list[i]);
        }
        i = i + 1;
    }
    None
}

/// Whether unique `u` can drop on base `b`.
pub open spec fn spec_unique_fits(u: UniqueDef, b: BaseItem) -> bool {
    b.equip_slot == u.equip_slot && spec_base_matches(u.matches_base, b)
}

/// Every unique that targets `base`'s slot and accepts `base`, in table
/// order.
pub fn candidates_for(base: &BaseItem) -> (r: Vec<UniqueDef>)
    ensures
        r@ == spec_uniques().filter(|u: UniqueDef| spec_unique_fits(u, *base)),
{
    let list = uniques();
    let mut out: Vec<UniqueDef> = Vec::new();
    let mut i: usize = 0;
    while i < list.len()
        invariant
            list@ == spec_uniques(),
            i <= list@.len(),
            out@ == list@.take(i as int).filter(|u: UniqueDef| spec_unique_fits(u, *base)),
        decreases list@.len() - i,
    {
        proof {
            reveal(Seq::filter);
            assert(list@.take(i + 1).drop_last() =~= list@.take(i as int));
        }
        let u = list[i];
        if base.equip_slot == u.equip_slot && base_matches(u.matches_base, base) {
            out.push(u);
        }
        i = i + 1;
    }
    proof {
        assert(list@.take(list@.len() as int) =~= list@);
    }
    out
}

} // verus!

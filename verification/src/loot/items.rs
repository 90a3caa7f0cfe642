//! Item base types and synergy tag system.
//!
//! Each [`BaseItem`] declares its semantic [`ItemSlot`], the physical
//! [`EquipSlot`] it occupies, the affix tags it allows and favours, its
//! damage family, and its always-present implicit stats. Implicit and
//! affix magnitudes are written in thousandths (`80` is `0.08`,
//! `12000` is `12.0`).

pub mod tag;

use vstd::prelude::*;

use crate::character::Gender;
use crate::stats::Stat;
use super::families::{Archetype, Attribute, BaseFamily, Element};
use self::tag::{ALL, ANY_ELEMENT, CASTER, CRIT, DEFENSE, MELEE, SPEED, UTILITY};

verus! {

#[derive(Clone, Copy, Debug, PartialEq, Eq, Hash, Structural)]
pub enum WeaponKind {
    Staff,
    Sword,
    Dagger,
    Wand,
}

#[derive(Clone, Copy, Debug, PartialEq, Eq, Hash, Structural)]
pub enum ArmorKind {
    Heavy,
    Light,
    Robe,
}

#[derive(Clone, Copy, Debug, PartialEq, Eq, Hash, Structural)]
pub enum AccessoryKind {
    Ring,
    Amulet,
}

/// Semantic item type — what *kind* of thing it is. Independent of
/// where on the body it goes (that's [`EquipSlot`]).
#[derive(Clone, Copy, Debug, PartialEq, Eq, Hash, Structural)]
pub enum ItemSlot {
    Weapon(WeaponKind),
    Armor(ArmorKind),
    Accessory(AccessoryKind),
}

/// Physical slot on the character. The position of each variant in
/// [`EquipSlot::all`] is its stable wire / persistence byte; new
/// variants are appended.
#[derive(Clone, Copy, Debug, PartialEq, Eq, Hash, Structural)]
pub enum EquipSlot {
    Weapon,
    Helm,
    Chest,
    Legs,
    Hands,
    Boots,
    Ring1,
    Ring2,
    Amulet,
    Shoulders,
}

/// Number of physical slots.
pub const EQUIP_SLOT_COUNT: usize = 10;

impl EquipSlot {
    /// Stable wire / persistence ordering of every slot.
    pub open spec fn spec_all() -> Seq<EquipSlot> {
        seq![
            EquipSlot::Weapon,
            EquipSlot::Helm,
            EquipSlot::Chest,
            EquipSlot::Legs,
            EquipSlot::Hands,
            EquipSlot::Boots,
            EquipSlot::Ring1,
            EquipSlot::Ring2,
            EquipSlot::Amulet,
            EquipSlot::Shoulders,
        ]
    }

    /// Every slot in wire order.
    pub fn all() -> (r: [EquipSlot; 10])
        ensures
            r@ == Self::spec_all(),
    {
        let r = [
            EquipSlot::Weapon,
            EquipSlot::Helm,
            EquipSlot::Chest,
            EquipSlot::Legs,
            EquipSlot::Hands,
            EquipSlot::Boots,
            EquipSlot::Ring1,
            EquipSlot::Ring2,
            EquipSlot::Amulet,
            EquipSlot::Shoulders,
        ];
        assert(r@ == Self::spec_all());
        r
    }

    /// The slot's index in [`EquipSlot::spec_all`].
    pub open spec fn spec_to_u8(self) -> u8 {
        match self {
            EquipSlot::Weapon => 0,
            EquipSlot::Helm => 1,
            EquipSlot::Chest => 2,
            EquipSlot::Legs => 3,
            EquipSlot::Hands => 4,
            EquipSlot::Boots => 5,
            EquipSlot::Ring1 => 6,
            EquipSlot::Ring2 => 7,
            EquipSlot::Amulet => 8,
            EquipSlot::Shoulders => 9,
        }
    }

    /// Stable index into [`EquipSlot::all`]; the wire byte.
    pub fn to_u8(self) -> (r: u8)
        ensures
            r == self.spec_to_u8(),
            (r as int) < EQUIP_SLOT_COUNT,
            Self::spec_all()[r as int] == self,
    {
        match self {
            EquipSlot::Weapon => 0,
            EquipSlot::Helm => 1,
            EquipSlot::Chest => 2,
            EquipSlot::Legs => 3,
            EquipSlot::Hands => 4,
            EquipSlot::Boots => 5,
            EquipSlot::Ring1 => 6,
            EquipSlot::Ring2 => 7,
            EquipSlot::Amulet => 8,
            EquipSlot::Shoulders => 9,
        }
    }

    /// Inverse of [`EquipSlot::to_u8`]: the slot at position `byte`,
    /// `None` for bytes outside the table.
    pub fn from_u8(byte: u8) -> (r: Option<EquipSlot>)
        ensures
            (byte as int) < EQUIP_SLOT_COUNT ==> r == Some(Self::spec_all()[byte as int]),
            (byte as int) >= EQUIP_SLOT_COUNT ==> r is None,
    {
        let all = Self::all();
        if (byte as usize) < all.len() {
            Some(all[byte as usize])
        } else {
            None
        }
    }

    pub open spec fn spec_label(self) -> &'static str {
        match self {
            EquipSlot::Weapon => "Weapon",
            EquipSlot::Helm => "Helm",
            EquipSlot::Shoulders => "Shoulders",
            EquipSlot::Chest => "Chest",
            EquipSlot::Legs => "Legs",
            EquipSlot::Hands => "Hands",
            EquipSlot::Boots => "Boots",
            EquipSlot::Ring1 => "Ring 1",
            EquipSlot::Ring2 => "Ring 2",
            EquipSlot::Amulet => "Amulet",
        }
    }

    /// Human-friendly label for HUD / tooltip.
    pub fn label(self) -> (r: &'static str)
        ensures
            r == self.spec_label(),
    {
        match self {
            EquipSlot::Weapon => "Weapon",
            EquipSlot::Helm => "Helm",
            EquipSlot::Shoulders => "Shoulders",
            EquipSlot::Chest => "Chest",
            EquipSlot::Legs => "Legs",
            EquipSlot::Hands => "Hands",
            EquipSlot::Boots => "Boots",
            EquipSlot::Ring1 => "Ring 1",
            EquipSlot::Ring2 => "Ring 2",
            EquipSlot::Amulet => "Amulet",
        }
    }

    pub open spec fn spec_inventory_size(self) -> (u8, u8) {
        match self {
            EquipSlot::Weapon => (2, 3),
            EquipSlot::Shoulders => (2, 2),
            EquipSlot::Chest => (2, 3),
            EquipSlot::Legs => (2, 2),
            EquipSlot::Helm => (2, 2),
            EquipSlot::Hands => (2, 2),
            EquipSlot::Boots => (2, 2),
            EquipSlot::Ring1 | EquipSlot::Ring2 => (1, 1),
            EquipSlot::Amulet => (1, 1),
        }
    }

    /// Default `(width, height)` in bag cells of an item targeting
    /// this slot.
    pub fn inventory_size(self) -> (r: (u8, u8))
        ensures
            r == self.spec_inventory_size(),
    {
        match self {
            EquipSlot::Weapon => (2, 3),
            EquipSlot::Shoulders => (2, 2),
            EquipSlot::Chest => (2, 3),
            EquipSlot::Legs => (2, 2),
            EquipSlot::Helm => (2, 2),
            EquipSlot::Hands => (2, 2),
            EquipSlot::Boots => (2, 2),
            EquipSlot::Ring1 | EquipSlot::Ring2 => (1, 1),
            EquipSlot::Amulet => (1, 1),
        }
    }
}

/// Every slot's byte decodes back to the slot, and distinct slots get
/// distinct bytes.
pub proof fn lemma_equip_slot_wire_round_trip(s: EquipSlot, t: EquipSlot)
    ensures
        (s.spec_to_u8() as int) < EQUIP_SLOT_COUNT,
        EquipSlot::spec_all()[s.spec_to_u8() as int] == s,
        s.spec_to_u8() == t.spec_to_u8() ==> s == t,
{
}

/// Gendered art override for a [`BaseItem`]: the model worn by each
/// gender, `None` where that art has not been authored.
#[derive(Clone, Copy, Debug)]
pub struct GenderedModel {
    pub female: Option<&'static str>,
    pub male: Option<&'static str>,
}

impl GenderedModel {
    /// Pick the path matching `gender`.
    pub fn for_gender(&self, gender: Gender) -> (r: Option<&'static str>)
        ensures
            r == (match gender {
                Gender::Female => self.female,
                Gender::Male => self.male,
            }),
    {
        match gender {
            Gender::Female => self.female,
            Gender::Male => self.male,
        }
    }
}

/// One row in the base-item table.
#[derive(Clone, Copy, Debug)]
pub struct BaseItem {
    pub id: &'static str,
    pub name: &'static str,
    pub slot: ItemSlot,
    pub equip_slot: EquipSlot,
    /// Affix tags this base is willing to roll.
    pub allowed_tags: u32,
    /// Affix tags this base prefers — pool weight ×2 inside the mask.
    pub favored_tags: u32,
    /// Damage-axis lock for attribute / element lines.
    pub family: BaseFamily,
    /// Always-present stats with their magnitudes in thousandths.
    pub implicit: &'static [(Stat, u32)],
    /// Minimum item-level at which this base can drop.
    pub min_ilvl: u32,
    /// Registry key for the inventory icon.
    pub icon: &'static str,
    /// Optional per-gender model worn when equipped.
    pub models: Option<GenderedModel>,
}

/// Number of rows in the base-item catalogue.
pub const BASE_ITEM_COUNT: usize = 14;

/// The base-item catalogue, row by row.
pub open spec fn spec_base_item(i: int) -> BaseItem {
    if i == 0 {
        BaseItem {
            id: "staff_basic",
            name: "Apprentice Staff",
            slot: ItemSlot::Weapon(WeaponKind::Staff),
            equip_slot: EquipSlot::Weapon,
            allowed_tags: ANY_ELEMENT | CASTER | UTILITY | CRIT,
            favored_tags: ANY_ELEMENT | CASTER,
            family: BaseFamily { attribute: Some(Attribute::Intellect), element: Some(vstd::array::spec_array_as_slice(&[Element::Fire, Element::Ice, Element::Lightning])), archetype: Some(vstd::array::spec_array_as_slice(&[Archetype::Projectile])) },
            implicit: vstd::array::spec_array_as_slice(&[]),
            min_ilvl: 1,
            icon: "loot/Weapons/1",
            models: None,
        }
    } else if i == 1 {
        BaseItem {
            id: "sword_basic",
            name: "Iron Sword",
            slot: ItemSlot::Weapon(WeaponKind::Sword),
            equip_slot: EquipSlot::Weapon,
            allowed_tags: MELEE | CRIT | SPEED | DEFENSE | UTILITY,
            favored_tags: MELEE | CRIT,
            family: BaseFamily { attribute: Some(Attribute::Strength), element: Some(vstd::array::spec_array_as_slice(&[Element::Physical])), archetype: Some(vstd::array::spec_array_as_slice(&[Archetype::Melee])) },
            implicit: vstd::array::spec_array_as_slice(&[]),
            min_ilvl: 1,
            icon: "loot/Weapons/2",
            models: None,
        }
    } else if i == 2 {
        BaseItem {
            id: "dagger_basic",
            name: "Hunter's Dagger",
            slot: ItemSlot::Weapon(WeaponKind::Dagger),
            equip_slot: EquipSlot::Weapon,
            allowed_tags: MELEE | CRIT | SPEED | UTILITY,
            favored_tags: CRIT | SPEED,
            family: BaseFamily { attribute: Some(Attribute::Agility), element: Some(vstd::array::spec_array_as_slice(&[Element::Physical])), archetype: Some(vstd::array::spec_array_as_slice(&[Archetype::Melee])) },
            implicit: vstd::array::spec_array_as_slice(&[(Stat::CritChance, 50)]),
            min_ilvl: 1,
            icon: "loot/Weapons/3",
            models: None,
        }
    } else if i == 3 {
        BaseItem {
            id: "wand_basic",
            name: "Carved Wand",
            slot: ItemSlot::Weapon(WeaponKind::Wand),
            equip_slot: EquipSlot::Weapon,
            allowed_tags: ANY_ELEMENT | CASTER | UTILITY | SPEED,
            favored_tags: CASTER | UTILITY,
            family: BaseFamily { attribute: Some(Attribute::Intellect), element: Some(vstd::array::spec_array_as_slice(&[Element::Fire, Element::Ice, Element::Lightning])), archetype: Some(vstd::array::spec_array_as_slice(&[Archetype::Projectile])) },
            implicit: vstd::array::spec_array_as_slice(&[(Stat::CooldownReduction, 40)]),
            min_ilvl: 1,
            icon: "loot/Weapons/4",
            models: None,
        }
    } else if i == 4 {
        BaseItem {
            id: "light_helm",
            name: "Leather Helm",
            slot: ItemSlot::Armor(ArmorKind::Light),
            equip_slot: EquipSlot::Helm,
            allowed_tags: DEFENSE | MELEE | CRIT | UTILITY,
            favored_tags: DEFENSE | MELEE,
            family: BaseFamily { attribute: None, element: None, archetype: None },
            implicit: vstd::array::spec_array_as_slice(&[(Stat::Armor, 12000), (Stat::Health, 15000)]),
            min_ilvl: 1,
            icon: "loot/Helmets/Helmet_1",
            models: Some(GenderedModel { female: Some("assets/models/loot/helm/armor_helm_leather_01_female.glb"), male: Some("assets/models/loot/helm/armor_helm_leather_01_male.glb") }),
        }
    } else if i == 5 {
        BaseItem {
            id: "light_shoulders",
            name: "Leather Spaulders",
            slot: ItemSlot::Armor(ArmorKind::Light),
            equip_slot: EquipSlot::Shoulders,
            allowed_tags: SPEED | CRIT | DEFENSE | UTILITY,
            favored_tags: SPEED | CRIT,
            family: BaseFamily { attribute: None, element: None, archetype: None },
            implicit: vstd::array::spec_array_as_slice(&[(Stat::Evasion, 20), (Stat::Health, 12000)]),
            min_ilvl: 1,
            icon: "loot/Shoulders/Shoulders_1",
            models: Some(GenderedModel { female: Some("assets/models/loot/shoulderpads/armor_shoulderpads_leather_01_female.glb"), male: Some("assets/models/loot/shoulderpads/armor_shoulderpads_leather_01_male.glb") }),
        }
    } else if i == 6 {
        BaseItem {
            id: "heavy_chest",
            name: "Plated Cuirass",
            slot: ItemSlot::Armor(ArmorKind::Heavy),
            equip_slot: EquipSlot::Chest,
            allowed_tags: DEFENSE | MELEE | UTILITY,
            favored_tags: DEFENSE | MELEE,
            family: BaseFamily { attribute: Some(Attribute::Strength), element: None, archetype: None },
            implicit: vstd::array::spec_array_as_slice(&[(Stat::Armor, 24000), (Stat::Health, 30000)]),
            min_ilvl: 1,
            icon: "loot/BodyArmor/BodyArmor_1",
            models: None,
        }
    } else if i == 7 {
        BaseItem {
            id: "light_chest",
            name: "Studded Vest",
            slot: ItemSlot::Armor(ArmorKind::Light),
            equip_slot: EquipSlot::Chest,
            allowed_tags: DEFENSE | SPEED | CRIT | UTILITY,
            favored_tags: SPEED | CRIT,
            family: BaseFamily { attribute: None, element: None, archetype: None },
            implicit: vstd::array::spec_array_as_slice(&[(Stat::Evasion, 50), (Stat::Health, 18000)]),
            min_ilvl: 1,
            icon: "loot/BodyArmor/BodyArmor_2",
            models: Some(GenderedModel { female: Some("assets/models/loot/chest_pieces/armor_chest_leather_01_female.glb"), male: Some("assets/models/loot/chest_pieces/armor_chest_leather_01_male.glb") }),
        }
    } else if i == 8 {
        BaseItem {
            id: "light_boots",
            name: "Leather Boots",
            slot: ItemSlot::Armor(ArmorKind::Light),
            equip_slot: EquipSlot::Boots,
            allowed_tags: SPEED | CRIT | DEFENSE | UTILITY,
            favored_tags: SPEED,
            family: BaseFamily { attribute: None, element: None, archetype: None },
            implicit: vstd::array::spec_array_as_slice(&[(Stat::MoveSpeed, 50), (Stat::Evasion, 30)]),
            min_ilvl: 1,
            icon: "loot/Boots/Boots_1",
            models: Some(GenderedModel { female: Some("assets/models/loot/feet/armor_boots_leather_01_female.glb"), male: Some("assets/models/loot/feet/armor_boots_leather_01_male.glb") }),
        }
    } else if i == 9 {
        BaseItem {
            id: "robe_chest",
            name: "Mage Robe",
            slot: ItemSlot::Armor(ArmorKind::Robe),
            equip_slot: EquipSlot::Chest,
            allowed_tags: ANY_ELEMENT | CASTER | UTILITY | DEFENSE,
            favored_tags: CASTER | UTILITY,
            family: BaseFamily { attribute: Some(Attribute::Intellect), element: None, archetype: None },
            implicit: vstd::array::spec_array_as_slice(&[(Stat::Health, 14000), (Stat::ResourceRegen, 80)]),
            min_ilvl: 1,
            icon: "loot/BodyArmor/BodyArmor_3",
            models: None,
        }
    } else if i == 10 {
        BaseItem {
            id: "light_gloves",
            name: "Leather Gloves",
            slot: ItemSlot::Armor(ArmorKind::Light),
            equip_slot: EquipSlot::Hands,
            allowed_tags: ANY_ELEMENT | CASTER | UTILITY,
            favored_tags: CASTER | ANY_ELEMENT,
            family: BaseFamily { attribute: None, element: None, archetype: None },
            implicit: vstd::array::spec_array_as_slice(&[(Stat::CooldownReduction, 30)]),
            min_ilvl: 1,
            icon: "loot/Gloves/Gloves_1",
            models: Some(GenderedModel { female: Some("assets/models/loot/gloves/armor_gloves_leather_01_female.glb"), male: Some("assets/models/loot/gloves/armor_gloves_leather_01_male.glb") }),
        }
    } else if i == 11 {
        BaseItem {
            id: "light_legs",
            name: "Leather Leggings",
            slot: ItemSlot::Armor(ArmorKind::Light),
            equip_slot: EquipSlot::Legs,
            allowed_tags: DEFENSE | MELEE | UTILITY,
            favored_tags: DEFENSE,
            family: BaseFamily { attribute: None, element: None, archetype: None },
            implicit: vstd::array::spec_array_as_slice(&[(Stat::Armor, 16000), (Stat::Health, 20000)]),
            min_ilvl: 1,
            icon: "loot/Pants/Pants_1",
            models: Some(GenderedModel { female: Some("assets/models/loot/legs/armor_legs_leather_01_female.glb"), male: Some("assets/models/loot/legs/armor_legs_leather_01_male.glb") }),
        }
    } else if i == 12 {
        BaseItem {
            id: "ring_basic",
            name: "Plain Ring",
            slot: ItemSlot::Accessory(AccessoryKind::Ring),
            equip_slot: EquipSlot::Ring1,
            allowed_tags: ALL,
            favored_tags: 0,
            family: BaseFamily { attribute: None, element: None, archetype: None },
            implicit: vstd::array::spec_array_as_slice(&[]),
            min_ilvl: 1,
            icon: "loot/Rings/Ring_1",
            models: None,
        }
    } else {
        BaseItem {
            id: "amulet_basic",
            name: "Plain Amulet",
            slot: ItemSlot::Accessory(AccessoryKind::Amulet),
            equip_slot: EquipSlot::Amulet,
            allowed_tags: ALL,
            favored_tags: 0,
            family: BaseFamily { attribute: None, element: None, archetype: None },
            implicit: vstd::array::spec_array_as_slice(&[(Stat::Health, 10000)]),
            min_ilvl: 1,
            icon: "loot/Necklaces/Necklace_1",
            models: None,
        }
    }
}

/// Row `i` of the base-item catalogue.
pub fn base_item(i: usize) -> (r: BaseItem)
    requires
        i < BASE_ITEM_COUNT,
    ensures
        r == spec_base_item(i as int),
{
    if i == 0 {
        BaseItem {
            id: "staff_basic",
            name: "Apprentice Staff",
            slot: ItemSlot::Weapon(WeaponKind::Staff),
            equip_slot: EquipSlot::Weapon,
            allowed_tags: ANY_ELEMENT | CASTER | UTILITY | CRIT,
            favored_tags: ANY_ELEMENT | CASTER,
            family: BaseFamily { attribute: Some(Attribute::Intellect), element: Some(&[Element::Fire, Element::Ice, Element::Lightning]), archetype: Some(&[Archetype::Projectile]) },
            implicit: &[],
            min_ilvl: 1,
            icon: "loot/Weapons/1",
            models: None,
        }
    } else if i == 1 {
        BaseItem {
            id: "sword_basic",
            name: "Iron Sword",
            slot: ItemSlot::Weapon(WeaponKind::Sword),
            equip_slot: EquipSlot::Weapon,
            allowed_tags: MELEE | CRIT | SPEED | DEFENSE | UTILITY,
            favored_tags: MELEE | CRIT,
            family: BaseFamily { attribute: Some(Attribute::Strength), element: Some(&[Element::Physical]), archetype: Some(&[Archetype::Melee]) },
            implicit: &[],
            min_ilvl: 1,
            icon: "loot/Weapons/2",
            models: None,
        }
    } else if i == 2 {
        BaseItem {
            id: "dagger_basic",
            name: "Hunter's Dagger",
            slot: ItemSlot::Weapon(WeaponKind::Dagger),
            equip_slot: EquipSlot::Weapon,
            allowed_tags: MELEE | CRIT | SPEED | UTILITY,
            favored_tags: CRIT | SPEED,
            family: BaseFamily { attribute: Some(Attribute::Agility), element: Some(&[Element::Physical]), archetype: Some(&[Archetype::Melee]) },
            implicit: &[(Stat::CritChance, 50)],
            min_ilvl: 1,
            icon: "loot/Weapons/3",
            models: None,
        }
    } else if i == 3 {
        BaseItem {
            id: "wand_basic",
            name: "Carved Wand",
            slot: ItemSlot::Weapon(WeaponKind::Wand),
            equip_slot: EquipSlot::Weapon,
            allowed_tags: ANY_ELEMENT | CASTER | UTILITY | SPEED,
            favored_tags: CASTER | UTILITY,
            family: BaseFamily { attribute: Some(Attribute::Intellect), element: Some(&[Element::Fire, Element::Ice, Element::Lightning]), archetype: Some(&[Archetype::Projectile]) },
            implicit: &[(Stat::CooldownReduction, 40)],
            min_ilvl: 1,
            icon: "loot/Weapons/4",
            models: None,
        }
    } else if i == 4 {
        BaseItem {
            id: "light_helm",
            name: "Leather Helm",
            slot: ItemSlot::Armor(ArmorKind::Light),
            equip_slot: EquipSlot::Helm,
            allowed_tags: DEFENSE | MELEE | CRIT | UTILITY,
            favored_tags: DEFENSE | MELEE,
            family: BaseFamily { attribute: None, element: None, archetype: None },
            implicit: &[(Stat::Armor, 12000), (Stat::Health, 15000)],
            min_ilvl: 1,
            icon: "loot/Helmets/Helmet_1",
            models: Some(GenderedModel { female: Some("assets/models/loot/helm/armor_helm_leather_01_female.glb"), male: Some("assets/models/loot/helm/armor_helm_leather_01_male.glb") }),
        }
    } else if i == 5 {
        BaseItem {
            id: "light_shoulders",
            name: "Leather Spaulders",
            slot: ItemSlot::Armor(ArmorKind::Light),
            equip_slot: EquipSlot::Shoulders,
            allowed_tags: SPEED | CRIT | DEFENSE | UTILITY,
            favored_tags: SPEED | CRIT,
            family: BaseFamily { attribute: None, element: None, archetype: None },
            implicit: &[(Stat::Evasion, 20), (Stat::Health, 12000)],
            min_ilvl: 1,
            icon: "loot/Shoulders/Shoulders_1",
            models: Some(GenderedModel { female: Some("assets/models/loot/shoulderpads/armor_shoulderpads_leather_01_female.glb"), male: Some("assets/models/loot/shoulderpads/armor_shoulderpads_leather_01_male.glb") }),
        }
    } else if i == 6 {
        BaseItem {
            id: "heavy_chest",
            name: "Plated Cuirass",
            slot: ItemSlot::Armor(ArmorKind::Heavy),
            equip_slot: EquipSlot::Chest,
            allowed_tags: DEFENSE | MELEE | UTILITY,
            favored_tags: DEFENSE | MELEE,
            family: BaseFamily { attribute: Some(Attribute::Strength), element: None, archetype: None },
            implicit: &[(Stat::Armor, 24000), (Stat::Health, 30000)],
            min_ilvl: 1,
            icon: "loot/BodyArmor/BodyArmor_1",
            models: None,
        }
    } else if i == 7 {
        BaseItem {
            id: "light_chest",
            name: "Studded Vest",
            slot: ItemSlot::Armor(ArmorKind::Light),
            equip_slot: EquipSlot::Chest,
            allowed_tags: DEFENSE | SPEED | CRIT | UTILITY,
            favored_tags: SPEED | CRIT,
            family: BaseFamily { attribute: None, element: None, archetype: None },
            implicit: &[(Stat::Evasion, 50), (Stat::Health, 18000)],
            min_ilvl: 1,
            icon: "loot/BodyArmor/BodyArmor_2",
            models: Some(GenderedModel { female: Some("assets/models/loot/chest_pieces/armor_chest_leather_01_female.glb"), male: Some("assets/models/loot/chest_pieces/armor_chest_leather_01_male.glb") }),
        }
    } else if i == 8 {
        BaseItem {
            id: "light_boots",
            name: "Leather Boots",
            slot: ItemSlot::Armor(ArmorKind::Light),
            equip_slot: EquipSlot::Boots,
            allowed_tags: SPEED | CRIT | DEFENSE | UTILITY,
            favored_tags: SPEED,
            family: BaseFamily { attribute: None, element: None, archetype: None },
            implicit: &[(Stat::MoveSpeed, 50), (Stat::Evasion, 30)],
            min_ilvl: 1,
            icon: "loot/Boots/Boots_1",
            models: Some(GenderedModel { female: Some("assets/models/loot/feet/armor_boots_leather_01_female.glb"), male: Some("assets/models/loot/feet/armor_boots_leather_01_male.glb") }),
        }
    } else if i == 9 {
        BaseItem {
            id: "robe_chest",
            name: "Mage Robe",
            slot: ItemSlot::Armor(ArmorKind::Robe),
            equip_slot: EquipSlot::Chest,
            allowed_tags: ANY_ELEMENT | CASTER | UTILITY | DEFENSE,
            favored_tags: CASTER | UTILITY,
            family: BaseFamily { attribute: Some(Attribute::Intellect), element: None, archetype: None },
            implicit: &[(Stat::Health, 14000), (Stat::ResourceRegen, 80)],
            min_ilvl: 1,
            icon: "loot/BodyArmor/BodyArmor_3",
            models: None,
        }
    } else if i == 10 {
        BaseItem {
            id: "light_gloves",
            name: "Leather Gloves",
            slot: ItemSlot::Armor(ArmorKind::Light),
            equip_slot: EquipSlot::Hands,
            allowed_tags: ANY_ELEMENT | CASTER | UTILITY,
            favored_tags: CASTER | ANY_ELEMENT,
            family: BaseFamily { attribute: None, element: None, archetype: None },
            implicit: &[(Stat::CooldownReduction, 30)],
            min_ilvl: 1,
            icon: "loot/Gloves/Gloves_1",
            models: Some(GenderedModel { female: Some("assets/models/loot/gloves/armor_gloves_leather_01_female.glb"), male: Some("assets/models/loot/gloves/armor_gloves_leather_01_male.glb") }),
        }
    } else if i == 11 {
        BaseItem {
            id: "light_legs",
            name: "Leather Leggings",
            slot: ItemSlot::Armor(ArmorKind::Light),
            equip_slot: EquipSlot::Legs,
            allowed_tags: DEFENSE | MELEE | UTILITY,
            favored_tags: DEFENSE,
            family: BaseFamily { attribute: None, element: None, archetype: None },
            implicit: &[(Stat::Armor, 16000), (Stat::Health, 20000)],
            min_ilvl: 1,
            icon: "loot/Pants/Pants_1",
            models: Some(GenderedModel { female: Some("assets/models/loot/legs/armor_legs_leather_01_female.glb"), male: Some("assets/models/loot/legs/armor_legs_leather_01_male.glb") }),
        }
    } else if i == 12 {
        BaseItem {
            id: "ring_basic",
            name: "Plain Ring",
            slot: ItemSlot::Accessory(AccessoryKind::Ring),
            equip_slot: EquipSlot::Ring1,
            allowed_tags: ALL,
            favored_tags: 0,
            family: BaseFamily { attribute: None, element: None, archetype: None },
            implicit: &[],
            min_ilvl: 1,
            icon: "loot/Rings/Ring_1",
            models: None,
        }
    } else {
        BaseItem {
            id: "amulet_basic",
            name: "Plain Amulet",
            slot: ItemSlot::Accessory(AccessoryKind::Amulet),
            equip_slot: EquipSlot::Amulet,
            allowed_tags: ALL,
            favored_tags: 0,
            family: BaseFamily { attribute: None, element: None, archetype: None },
            implicit: &[(Stat::Health, 10000)],
            min_ilvl: 1,
            icon: "loot/Necklaces/Necklace_1",
            models: None,
        }
    }
}

/// Default destination slot for a freshly-rolled item of kind `slot`.
pub fn default_slot_for(slot: ItemSlot) -> (r: EquipSlot)
    ensures
        r == (match slot {
            ItemSlot::Weapon(_) => EquipSlot::Weapon,
            ItemSlot::Armor(_) => EquipSlot::Chest,
            ItemSlot::Accessory(AccessoryKind::Ring) => EquipSlot::Ring1,
            ItemSlot::Accessory(AccessoryKind::Amulet) => EquipSlot::Amulet,
        }),
{
    match slot {
        ItemSlot::Weapon(_) => EquipSlot::Weapon,
        ItemSlot::Armor(_) => EquipSlot::Chest,
        ItemSlot::Accessory(AccessoryKind::Ring) => EquipSlot::Ring1,
        ItemSlot::Accessory(AccessoryKind::Amulet) => EquipSlot::Amulet,
    }
}

} // verus!

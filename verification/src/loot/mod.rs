//! Loot system — items, affixes, rarity, rolling, inventory.

pub mod rng;
pub mod affixes;
pub mod families;
pub mod rarity;
pub mod items;
pub mod item;
pub mod uniques;
pub mod roll;
pub mod enchant;
pub mod wire;
pub mod drops;
pub mod equipment;
pub mod inventory;
pub mod synergy;
pub mod name_gen;
pub mod tooltip;

//! `rift_game` — the declarative gameplay data of Rift Crawler and the
//! rules that act on it: stats, attributes, experience, characters,
//! abilities and the action-bar loadout, monsters, and the loot system.

pub mod stats;
pub mod text;
pub mod attributes;
pub mod character;
pub mod experience;
pub mod loot;
pub mod abilities;
pub mod loadout;
pub mod classes;
pub mod components;
pub mod debuffs;
pub mod decals;
pub mod hero;
pub mod monsters;
pub mod player_arms;
pub mod props;
pub mod character_select;
pub mod talents;

//! Tag bits shared by base items (`allowed_tags` / `favored_tags`) and
//! affixes (`tags`). Pool filtering is `(affix.tags & base.allowed_tags) != 0`.

use vstd::prelude::*;

verus! {

pub const FIRE: u32 = 1;
pub const ICE: u32 = 2;
pub const LIGHTNING: u32 = 4;
pub const CRIT: u32 = 8;
pub const SPEED: u32 = 16;
pub const DEFENSE: u32 = 32;
pub const CASTER: u32 = 64;
pub const MELEE: u32 = 128;
pub const UTILITY: u32 = 256;

/// Every tag — used by accessories, which can roll anything.
pub const ALL: u32 = 511;

/// Caster gear shorthand: the three elemental tags.
pub const ANY_ELEMENT: u32 = 7;

} // verus!

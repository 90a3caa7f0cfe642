//! Stable wire bytes of the abilities. Never reordered, only appended.
//! Player abilities live below 64; enemy abilities start at 64.

use vstd::prelude::*;

verus! {

pub const FIRE_BALL: u8 = 0;
pub const FIREBALL_VOLLEY: u8 = 1;
pub const EVASIVE_ROLL: u8 = 2;
pub const RAPID_FIRE: u8 = 3;
pub const MARK_FOR_DEATH: u8 = 4;
pub const RAIN_OF_ARROWS: u8 = 5;
pub const FROST_RAY: u8 = 6;
pub const WHIRLWIND: u8 = 7;
pub const FIRE_WAVE: u8 = 8;
pub const HEAL_TARGET: u8 = 9;
pub const HEAL_OVER_TIME_TARGET: u8 = 10;
/// Shards spawned by the Frost Ray shatter transform; never slotted.
pub const FROST_SHATTER_SHARD: u8 = 11;
/// Melee swing bound to the weapon.
pub const MELEE_ATTACK: u8 = 12;
/// Beam form of Fireball under the beam transform.
pub const FIREBALL_BEAM: u8 = 13;
/// Bare-handed neutral attack every character starts with.
pub const PUNCH: u8 = 14;
pub const VOID_FAMILIAR: u8 = 15;
pub const ARCANE_BOLT: u8 = 64;
pub const GROUND_SLAM_WINDUP: u8 = 65;
pub const GROUND_SLAM_IMPACT: u8 = 66;
pub const ARCANE_FAN: u8 = 67;
pub const GROUND_SLAM: u8 = 68;
pub const SUMMON_BRUTES: u8 = 69;
pub const WRAITH_SCREAM: u8 = 70;
pub const VOID_SIGIL: u8 = 71;
pub const WRAITH_SCREAM_WINDUP: u8 = 72;
pub const WRAITH_SCREAM_IMPACT: u8 = 73;
pub const VOID_SIGIL_WINDUP: u8 = 74;
pub const VOID_SIGIL_IMPACT: u8 = 75;
pub const VOID_FAMILIAR_BOLT: u8 = 76;

} // verus!

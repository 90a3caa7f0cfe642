//! Wire-stable debuff ids. Append-only.

use vstd::prelude::*;

verus! {

pub const SLOW: u8 = 0;
pub const BURN: u8 = 1;
pub const MARK: u8 = 2;
pub const CHILL: u8 = 3;

} // verus!

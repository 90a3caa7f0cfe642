//! Stable wire-byte mapping for `Gender`.

use vstd::prelude::*;

verus! {

pub const MALE: u8 = 0;
pub const FEMALE: u8 = 1;

} // verus!

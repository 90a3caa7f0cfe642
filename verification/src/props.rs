//! Dungeon props: trim-sheet textures and the seeded generator used to
//! scatter props.

use vstd::prelude::*;

use crate::loot::rng::spec_xorshift;

verus! {

/// Texture atlases the props are skinned with.
#[derive(Clone, Copy, PartialEq, Eq, Hash, Structural)]
pub enum TrimSheet {
    Furniture,
    Metal,
    Cloth,
    Props,
}

impl TrimSheet {
    /// Base-colour texture of each trim sheet.
    pub fn texture_path(self) -> (r: &'static str)
        ensures
            r == (match self {
                TrimSheet::Furniture => "assets/models/fantasy-props/Textures/T_Trim_Furniture_BaseColor.png",
                TrimSheet::Metal => "assets/models/fantasy-props/Textures/T_Trim_Metal_BaseColor.png",
                TrimSheet::Cloth => "assets/models/fantasy-props/Textures/T_Trim_Cloth_BaseColor.png",
                TrimSheet::Props => "assets/models/fantasy-props/Textures/T_Trim_Props_BaseColor.png",
            }),
    {
        match self {
            TrimSheet::Furniture => "assets/models/fantasy-props/Textures/T_Trim_Furniture_BaseColor.png",
            TrimSheet::Metal => "assets/models/fantasy-props/Textures/T_Trim_Metal_BaseColor.png",
            TrimSheet::Cloth => "assets/models/fantasy-props/Textures/T_Trim_Cloth_BaseColor.png",
            TrimSheet::Props => "assets/models/fantasy-props/Textures/T_Trim_Props_BaseColor.png",
        }
    }
}

/// Tiny xorshift64 generator for prop placement.
pub struct SmallRng {
    state: u64,
}

impl SmallRng {
    pub closed spec fn state(&self) -> u64 {
        self.state
    }

    /// A generator seeded with `seed` (zero replaced by the golden-ratio
    /// constant).
    pub fn new(seed: u64) -> (r: Self)
        ensures
            r.state() == (if seed == 0 { 0x9E37_79B9_7F4A_7C15u64 } else { seed }),
    {
        SmallRng { state: if seed == 0 { 0x9E37_79B9_7F4A_7C15 } else { seed } }
    }

    /// Next xorshift64 output; also the new state.
    pub fn next(&mut self) -> (r: u64)
        ensures
            r == spec_xorshift(old(self).state()),
            final(self).state() == r,
    {
        let mut x = self.state;
        x = x ^ (x << 13u64);
        x = x ^ (x >> 7u64);
        x = x ^ (x << 17u64);
        self.state = x;
        x
    }

    /// Uniform integer in `[lo, hi)`; an empty range returns `lo`
    /// without advancing.
    pub fn range(&mut self, lo: u32, hi: u32) -> (r: u32)
        ensures
            hi <= lo ==> r == lo && final(self).state() == old(self).state(),
            hi > lo ==> r == lo + spec_xorshift(old(self).state()) % ((hi - lo) as u64)
                && final(self).state() == spec_xorshift(old(self).state()),
    {
        if hi <= lo {
            return lo;
        }
        let x = self.next();
        lo + (x % ((hi - lo) as u64)) as u32
    }
}

} // verus!

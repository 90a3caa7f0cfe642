//! Item rarity tier + per-rarity affix-count rules.
//!
//! Rarity controls how many bonus affixes a drop carries and which
//! kinds of affixes it can roll (through each affix's minimum rarity).

use vstd::prelude::*;

verus! {

#[derive(Clone, Copy, Debug, PartialEq, Eq, Hash, PartialOrd, Ord, Structural)]
pub enum Rarity {
    Common,
    Magic,
    Rare,
    Legendary,
}

impl Rarity {
    /// Position in the tier order (Common 0 .. Legendary 3), which is
    /// also the wire / persistence byte.
    pub open spec fn spec_rank(self) -> u8 {
        match self {
            Rarity::Common => 0,
            Rarity::Magic => 1,
            Rarity::Rare => 2,
            Rarity::Legendary => 3,
        }
    }

    pub fn rank(self) -> (r: u8)
        ensures
            r == self.spec_rank(),
    {
        match self {
            Rarity::Common => 0,
            Rarity::Magic => 1,
            Rarity::Rare => 2,
            Rarity::Legendary => 3,
        }
    }

    /// The tier with wire byte `b`, if any.
    pub open spec fn spec_from_rank(b: u8) -> Option<Rarity> {
        if b == 0 {
            Some(Rarity::Common)
        } else if b == 1 {
            Some(Rarity::Magic)
        } else if b == 2 {
            Some(Rarity::Rare)
        } else if b == 3 {
            Some(Rarity::Legendary)
        } else {
            None
        }
    }

    /// Decode a wire byte: the four tiers by rank, `None` otherwise.
    pub fn from_rank(b: u8) -> (r: Option<Rarity>)
        ensures
            r == Rarity::spec_from_rank(b),
    {
        if b == 0 {
            Some(Rarity::Common)
        } else if b == 1 {
            Some(Rarity::Magic)
        } else if b == 2 {
            Some(Rarity::Rare)
        } else if b == 3 {
            Some(Rarity::Legendary)
        } else {
            None
        }
    }

    /// Number of bonus affixes per tier: Common 0, Magic 1, Rare 2,
    /// Legendary 3 (as an inclusive `(min, max)` range).
    pub open spec fn spec_affix_count_range(self) -> (u32, u32) {
        match self {
            Rarity::Common => (0, 0),
            Rarity::Magic => (1, 1),
            Rarity::Rare => (2, 2),
            Rarity::Legendary => (3, 3),
        }
    }

    /// Number of *bonus* affixes rolled at this rarity, on top of the
    /// per-slot signature lines every item gets.
    pub fn affix_count_range(self) -> (r: (u32, u32))
        ensures
            r == self.spec_affix_count_range(),
            r.0 == r.1 && r.0 == self.spec_rank(),
            self == Rarity::Common ==> r.1 == 0,
            self == Rarity::Legendary ==> r.1 == 3,
    {
        match self {
            Rarity::Common => (0, 0),
            Rarity::Magic => (1, 1),
            Rarity::Rare => (2, 2),
            Rarity::Legendary => (3, 3),
        }
    }

    pub open spec fn spec_name(self) -> &'static str {
        match self {
            Rarity::Common => "Common",
            Rarity::Magic => "Magic",
            Rarity::Rare => "Rare",
            Rarity::Legendary => "Legendary",
        }
    }

    pub fn name(self) -> (r: &'static str)
        ensures
            r == self.spec_name(),
    {
        match self {
            Rarity::Common => "Common",
            Rarity::Magic => "Magic",
            Rarity::Rare => "Rare",
            Rarity::Legendary => "Legendary",
        }
    }

    /// `true` if `self` is at least tier `other`.
    pub open spec fn spec_at_least(self, other: Rarity) -> bool {
        self.spec_rank() >= other.spec_rank()
    }

    /// `true` if `self >= other`. Used to gate affixes by their minimum rarity.
    pub fn at_least(self, other: Rarity) -> (r: bool)
        ensures
            r == self.spec_at_least(other),
    {
        self.rank() >= other.rank()
    }
}

/// Each tier rolls exactly as many bonus lines as its rank: one more per
/// step up from Common (none) to Legendary (three).
pub proof fn lemma_bonus_count_is_rank(r: Rarity)
    ensures
        r.spec_affix_count_range().0 == r.spec_affix_count_range().1,
        r.spec_affix_count_range().0 == r.spec_rank(),
        r.spec_affix_count_range().0 == (match r {
            Rarity::Common => 0u32,
            Rarity::Magic => 1u32,
            Rarity::Rare => 2u32,
            Rarity::Legendary => 3u32,
        }),
{
}

/// Decoding a tier's rank gives the tier back.
pub proof fn lemma_rarity_rank_round_trip(r: Rarity)
    ensures
        Rarity::spec_from_rank(r.spec_rank()) == Some(r),
{
}

/// The tier order is reflexive and transitive, and every tier is at
/// least Common.
pub proof fn lemma_at_least_is_a_total_order(a: Rarity, b: Rarity, c: Rarity)
    ensures
        a.spec_at_least(a),
        a.spec_at_least(Rarity::Common),
        a.spec_at_least(b) && b.spec_at_least(c) ==> a.spec_at_least(c),
        a.spec_at_least(b) || b.spec_at_least(a),
        a.spec_at_least(b) && b.spec_at_least(a) ==> a == b,
{
}

} // verus!

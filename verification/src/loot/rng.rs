//! Tiny seeded xorshift64 RNG for loot rolls.

use vstd::prelude::*;

verus! {

/// One xorshift64 step (shifts 13, 7, 17).
pub open spec fn spec_xorshift(x: u64) -> u64 {
    let a = x ^ (x << 13u64);
    let b = a ^ (a >> 7u64);
    b ^ (b << 17u64)
}

/// Sum of a weight list.
pub open spec fn spec_weight_sum(w: Seq<u32>) -> nat
    decreases w.len(),
{
    if w.len() == 0 {
        0
    } else {
        w[0] as nat + spec_weight_sum(w.drop_first())
    }
}

/// The index selected by `pick` in a weight list: walk the list,
/// subtracting each weight until `pick` falls inside one.
pub open spec fn spec_weighted_pick(w: Seq<u32>, pick: nat) -> Option<nat>
    decreases w.len(),
{
    if w.len() == 0 {
        None
    } else if pick < w[0] {
        Some(0)
    } else {
        match spec_weighted_pick(w.drop_first(), (pick - w[0]) as nat) {
            Some(i) => Some(i + 1),
            None => None,
        }
    }
}

/// A pick below the total always lands on an index whose weight is
/// positive.
pub proof fn lemma_weighted_pick_in_range(w: Seq<u32>, pick: nat)
    requires
        pick < spec_weight_sum(w),
    ensures
        spec_weighted_pick(w, pick) matches Some(i) && i < w.len() && w[i as int] > 0,
    decreases w.len(),
{
    if w.len() == 0 {
    } else if pick < w[0] {
    } else {
        lemma_weighted_pick_in_range(w.drop_first(), (pick - w[0]) as nat);
        let i = spec_weighted_pick(w.drop_first(), (pick - w[0]) as nat)->Some_0;
        assert(w.drop_first()[i as int] == w[(i + 1) as int]);
    }
}

/// A xorshift step maps a non-zero state to a non-zero state (each of
/// its three shift-xor steps is invertible), so a generator never
/// sticks at zero.
pub proof fn lemma_xorshift_nonzero(x: u64)
    requires
        x != 0,
    ensures
        spec_xorshift(x) != 0,
{
    let a = x ^ (x << 13u64);
    let b = a ^ (a >> 7u64);
    assert(x != 0 ==> x ^ (x << 13u64) != 0) by (bit_vector);
    assert(a != 0 ==> a ^ (a >> 7u64) != 0) by (bit_vector);
    assert(b != 0 ==> b ^ (b << 17u64) != 0) by (bit_vector);
}

/// Seeded xorshift64 generator. The state is never zero.
pub struct LootRng {
    state: u64,
}

impl LootRng {
    /// The state is never zero.
    #[verifier::type_invariant]
    spec fn nonzero(&self) -> bool {
        self.state != 0
    }

    /// The current generator state.
    pub closed spec fn state(&self) -> u64 {
        self.state
    }

    /// A generator seeded with `seed`; a zero seed (which would stick
    /// at zero) is replaced by the golden-ratio constant.
    pub fn new(seed: u64) -> (r: Self)
        ensures
            r.state() == (if seed == 0 { 0x9E37_79B9_7F4A_7C15u64 } else { seed }),
            r.state() != 0,
    {
        LootRng { state: if seed == 0 { 0x9E37_79B9_7F4A_7C15 } else { seed } }
    }

    /// Raw 64-bit xorshift output; the output is also the new state.
    pub fn next_u64(&mut self) -> (r: u64)
        ensures
            r == spec_xorshift(old(self).state()),
            final(self).state() == r,
            r != 0,
    {
        proof {
            use_type_invariant(&*self);
            lemma_xorshift_nonzero(self.state);
        }
        let mut x = self.state;
        x = x ^ (x << 13u64);
        x = x ^ (x >> 7u64);
        x = x ^ (x << 17u64);
        self.state = x;
        x
    }

    /// The top 24 bits of the next output: the unit draw that a uniform
    /// fraction in `[0, 1)` is made from (`draw / 2^24`).
    pub fn next_unit_bits(&mut self) -> (r: u32)
        ensures
            r == (spec_xorshift(old(self).state()) >> 40u64) as u32,
            r < 0x100_0000,
            final(self).state() == spec_xorshift(old(self).state()),
            final(self).state() != 0,
    {
        let x = self.next_u64();
        assert((x >> 40u64) < 0x100_0000) by (bit_vector);
        (x >> 40u64) as u32
    }

    /// Uniform integer in `[lo, hi)`: `lo + next % (hi - lo)`. An empty
    /// range returns `lo` without advancing the generator.
    pub fn range(&mut self, lo: u32, hi: u32) -> (r: u32)
        ensures
            hi <= lo ==> r == lo && final(self).state() == old(self).state(),
            hi > lo ==> r == lo + spec_xorshift(old(self).state()) % ((hi - lo) as u64)
                && final(self).state() == spec_xorshift(old(self).state()),
            hi > lo ==> lo <= r < hi,
            final(self).state() != 0,
    {
        proof {
            use_type_invariant(&*self);
        }
        if hi <= lo {
            return lo;
        }
        let x = self.next_u64();
        let span = (hi - lo) as u64;
        let m = x % span;
        lo + m as u32
    }

    /// Pick an index from `weights` proportional to its weight. Returns
    /// `None` (without advancing the generator) if `weights` is empty or
    /// all zero; otherwise draws `pick` in `[0, total)` and returns the
    /// index it falls in, which always has a positive weight.
    pub fn weighted_index(&mut self, weights: &[u32]) -> (r: Option<usize>)
        requires
            spec_weight_sum(weights@) <= u32::MAX,
        ensures
            spec_weight_sum(weights@) == 0 ==> r is None && final(self).state() == old(self).state(),
            spec_weight_sum(weights@) > 0 ==> final(self).state() == spec_xorshift(old(self).state()),
            spec_weight_sum(weights@) > 0 ==> (r matches Some(i) && spec_weighted_pick(
                weights@,
                (spec_xorshift(old(self).state()) % (spec_weight_sum(weights@) as u64)) as nat,
            ) == Some(i as nat) && i < weights@.len() && weights@[i as int] > 0),
            final(self).state() != 0,
    {
        proof {
            use_type_invariant(&*self);
        }
        let mut total: u32 = 0;
        let mut k: usize = 0;
        assert(weights@.subrange(0, weights@.len() as int) == weights@);
        while k < weights.len()
            invariant
                k <= weights@.len(),
                total as nat + spec_weight_sum(weights@.subrange(k as int, weights@.len() as int))
                    == spec_weight_sum(weights@),
                spec_weight_sum(weights@) <= u32::MAX,
            decreases weights@.len() - k,
        {
            let ghost rest = weights@.subrange(k as int, weights@.len() as int);
            assert(rest.drop_first() == weights@.subrange(k + 1, weights@.len() as int));
            total = total + weights[k];
            k = k + 1;
        }
        assert(weights@.subrange(weights@.len() as int, weights@.len() as int).len() == 0);
        if total == 0 {
            return None;
        }
        let mut pick = self.range(0, total);
        let ghost pick0 = pick as nat;
        proof {
            assert(weights@.subrange(0, weights@.len() as int) == weights@);
            lemma_weighted_pick_in_range(weights@, pick0);
        }
        let mut i: usize = 0;
        while i < weights.len()
            invariant
                i <= weights@.len(),
                total as nat == spec_weight_sum(weights@),
                total > 0,
                self.state() == spec_xorshift(old(self).state()),
                self.state() != 0,
                pick0 == (spec_xorshift(old(self).state()) % (total as u64)) as nat,
                spec_weighted_pick(weights@, pick0) == (match spec_weighted_pick(
                    weights@.subrange(i as int, weights@.len() as int),
                    pick as nat,
                ) {
                    Some(j) => Some((j + i) as nat),
                    None => None,
                }),
                (spec_weighted_pick(weights@, pick0) matches Some(j) && j < weights@.len()
                    && weights@[j as int] > 0),
            decreases weights@.len() - i,
        {
            let ghost rest = weights@.subrange(i as int, weights@.len() as int);
            assert(rest[0] == weights@[i as int]);
            assert(rest.drop_first() == weights@.subrange(i + 1, weights@.len() as int));
            if pick < weights[i] {
                return Some(i);
            }
            pick = pick - weights[i];
            i = i + 1;
        }
        assert(weights@.subrange(weights@.len() as int, weights@.len() as int).len() == 0);
        None
    }
}

} // verus!

//! Debuff identities and the `u32` bitmask (one bit per id) that
//! snapshots carry.

pub mod id;

use vstd::prelude::*;

verus! {

/// Turn a debuff id into a single-bit mask value (`1 << id`). Ids of
/// 32 and above collapse to zero.
pub fn bit_for(debuff_id: u8) -> (r: u32)
    ensures
        debuff_id >= 32 ==> r == 0,
        debuff_id < 32 ==> r == (1u32 << debuff_id),
{
    if debuff_id >= 32 { 0 } else { 1u32 << debuff_id }
}

/// The debuff ids encoded in a bitmask, in increasing order.
pub fn iter_mask(mask: u32) -> (r: Vec<u8>)
    ensures
        forall|k: int| 0 <= k < r@.len() ==> #[trigger] r@[k] < 32,
        forall|k: int, l: int| 0 <= k < l < r@.len() ==> r@[k] < r@[l],
        forall|b: u8| b < 32 ==> (r@.contains(b) <==> (mask & (1u32 << b)) != 0),
{
    let mut out: Vec<u8> = Vec::new();
    let mut i: u8 = 0;
    while i < 32
        invariant
            i <= 32,
            forall|k: int| 0 <= k < out@.len() ==> #[trigger] out@[k] < i,
            forall|k: int, l: int| 0 <= k < l < out@.len() ==> out@[k] < out@[l],
            forall|b: u8| b < i ==> (out@.contains(b) <==> (mask & (1u32 << b)) != 0),
        decreases 32 - i,
    {
        let ghost prev = out@;
        let bit = mask & (1u32 << i) != 0;
        if bit {
            out.push(i);
        }
        assert forall|b: u8| b < i + 1 implies (out@.contains(b) <==> (mask & (1u32 << b)) != 0) by {
            if b < i {
                if out@.contains(b) {
                    let k = choose|k: int| 0 <= k < out@.len() && out@[k] == b;
                    if k < prev.len() {
                        assert(prev[k] == b);
                    }
                }
                if prev.contains(b) {
                    let k = choose|k: int| 0 <= k < prev.len() && prev[k] == b;
                    assert(out@[k] == b);
                }
            } else {
                if bit {
                    assert(out@[prev.len() as int] == b);
                } else {
                    assert(out@ == prev);
                }
            }
        }
        i = i + 1;
    }
    out
}

/// A single debuff's bit decodes back to exactly that debuff.
pub proof fn lemma_bit_round_trip(id: u8, b: u8)
    requires
        id < 32,
        b < 32,
    ensures
        ((1u32 << id) & (1u32 << b) != 0) == (id == b),
{
    assert(((1u32 << id) & (1u32 << b) != 0) == (id == b)) by (bit_vector)
        requires id < 32, b < 32;
}

} // verus!

//! A rolled drop: base item + rarity + a list of [`RolledAffix`].
//!
//! Magnitudes are `f32` quantities in the game; the library carries each
//! one as its IEEE-754 bit pattern (`value_bits`), so that a save or a
//! network payload round-trips bit for bit.

use vstd::prelude::*;

use super::affixes::AffixDef;
use super::items::BaseItem;
use super::rarity::Rarity;

verus! {

/// One realised affix on an item.
#[derive(Clone, Copy, Debug)]
pub struct RolledAffix {
    pub def: AffixDef,
    /// Bit pattern of the `f32` magnitude rolled within the affix's range.
    pub value_bits: u32,
}

/// One realised rift-touched bonus line, with the floor depth it was
/// rolled at.
#[derive(Clone, Copy, Debug)]
pub struct RolledRiftTouched {
    pub def: AffixDef,
    /// Bit pattern of the `f32` magnitude.
    pub value_bits: u32,
    /// Floor index at the moment of the kill.
    pub depth: u16,
}

/// 16-byte UUID payload identifying a character.
pub type CharacterIdBytes = [u8; 16];

/// Eligibility lineage attached to an [`Item`]: every character that
/// shared the originating expedition, sorted and without repeats.
#[derive(Clone, Debug)]
pub struct LootProvenance {
    pub eligible: Vec<CharacterIdBytes>,
}

/// `a` sorts strictly before `b`, comparing bytes from the first.
pub open spec fn spec_id_lt(a: CharacterIdBytes, b: CharacterIdBytes) -> bool {
    exists|k: int|
        0 <= k < 16 && a@[k] < b@[k] && forall|j: int| 0 <= j < k ==> a@[j] == b@[j]
}

/// A list of ids in strictly increasing order.
pub open spec fn spec_strictly_sorted(s: Seq<CharacterIdBytes>) -> bool {
    forall|i: int, j: int| 0 <= i < j < s.len() ==> spec_id_lt(s[i], s[j])
}

/// Byte-wise comparison of two ids: `-1`, `0` or `1`.
fn compare_ids(a: &CharacterIdBytes, b: &CharacterIdBytes) -> (r: i8)
    ensures
        r == 0 <==> *a == *b,
        r < 0 <==> spec_id_lt(*a, *b),
        r > 0 <==> spec_id_lt(*b, *a),
        -1 <= r <= 1,
{
    let mut k: usize = 0;
    while k < 16
        invariant
            k <= 16,
            forall|j: int| 0 <= j < k ==> a@[j] == b@[j],
        decreases 16 - k,
    {
        if a[k] < b[k] {
            assert(spec_id_lt(*a, *b));
            assert(!spec_id_lt(*b, *a)) by {
                if spec_id_lt(*b, *a) {
                    let w = choose|w: int|
                        0 <= w < 16 && b@[w] < a@[w] && forall|j: int| 0 <= j < w ==> b@[j] == a@[j];
                    assert(w <= k as int ==> false) by {
                        if w < k as int {
                        } else if w == k as int {
                        }
                    }
                    assert(a@[k as int] == b@[k as int]);
                }
            }
            assert(*a != *b);
            return -1;
        }
        if a[k] > b[k] {
            assert(spec_id_lt(*b, *a));
            assert(!spec_id_lt(*a, *b)) by {
                if spec_id_lt(*a, *b) {
                    let w = choose|w: int|
                        0 <= w < 16 && a@[w] < b@[w] && forall|j: int| 0 <= j < w ==> a@[j] == b@[j];
                    assert(w <= k as int ==> false) by {
                        if w < k as int {
                        } else if w == k as int {
                        }
                    }
                    assert(a@[k as int] == b@[k as int]);
                }
            }
            assert(*a != *b);
            return 1;
        }
        k = k + 1;
    }
    assert(*a =~= *b);
    0
}

impl LootProvenance {
    /// Build a provenance snapshot from a list of character ids: the
    /// same set of ids, sorted and with repeats removed. An empty input
    /// gives an empty set, which allows nobody.
    pub fn from_ids(ids: Vec<CharacterIdBytes>) -> (r: LootProvenance)
        ensures
            spec_strictly_sorted(r.eligible@),
            r.eligible@.to_set() == ids@.to_set(),
    {
        let mut eligible: Vec<CharacterIdBytes> = Vec::new();
        let mut i: usize = 0;
        while i < ids.len()
            invariant
                i <= ids@.len(),
                spec_strictly_sorted(eligible@),
                eligible@.to_set() == ids@.subrange(0, i as int).to_set(),
            decreases ids@.len() - i,
        {
            let id = ids[i];
            let ghost before = eligible@;
            // Find the insertion point: the first entry not below `id`.
            let mut pos: usize = 0;
            let mut found = false;
            let mut stop = false;
            while pos < eligible.len() && !stop
                invariant
                    pos <= eligible@.len(),
                    eligible@ == before,
                    spec_strictly_sorted(eligible@),
                    forall|j: int| 0 <= j < pos ==> spec_id_lt(eligible@[j], id),
                    stop ==> pos < eligible@.len(),
                    stop && found ==> eligible@[pos as int] == id,
                    stop && !found ==> spec_id_lt(id, eligible@[pos as int]),
                    !stop ==> !found,
                decreases eligible@.len() - pos, if stop { 0int } else { 1int },
            {
                let c = compare_ids(&eligible[pos], &id);
                if c == 0 {
                    found = true;
                    stop = true;
                } else if c > 0 {
                    stop = true;
                } else {
                    pos = pos + 1;
                }
            }
            proof {
                assert(ids@.subrange(0, i + 1) =~= ids@.subrange(0, i as int).push(id));
                ids@.subrange(0, i as int).lemma_push_to_set_commute(id);
            }
            if !found {
                eligible.insert(pos, id);
                proof {
                    lemma_insert_keeps_sorted(before, id, pos as int);
                    assert(eligible@.to_set() =~= before.to_set().insert(id)) by {
                        assert forall|x| eligible@.to_set().contains(x) implies before.to_set().insert(id).contains(x) by {
                            let k = choose|k: int| 0 <= k < eligible@.len() && eligible@[k] == x;
                            if k < pos {
                                assert(before[k] == x);
                            } else if k > pos {
                                assert(before[k - 1] == x);
                            }
                        }
                        assert forall|x| before.to_set().insert(id).contains(x) implies eligible@.to_set().contains(x) by {
                            if x == id {
                                assert(eligible@[pos as int] == id);
                            } else {
                                let k = choose|k: int| 0 <= k < before.len() && before[k] == x;
                                if k < pos {
                                    assert(eligible@[k] == x);
                                } else {
                                    assert(eligible@[k + 1] == x);
                                }
                            }
                        }
                    }
                }
            } else {
                proof {
                    assert(before.to_set().contains(id)) by {
                        assert(before[pos as int] == id);
                    }
                    assert(before.to_set().insert(id) =~= before.to_set());
                }
            }
            i = i + 1;
        }
        proof {
            assert(ids@.subrange(0, ids@.len() as int) =~= ids@);
        }
        LootProvenance { eligible }
    }

    /// `true` if `who` shared the originating expedition.
    pub fn allows(&self, who: &CharacterIdBytes) -> (r: bool)
        ensures
            r == self.eligible@.contains(*who),
    {
        let mut i: usize = 0;
        while i < self.eligible.len()
            invariant
                i <= self.eligible@.len(),
                forall|j: int| 0 <= j < i ==> self.eligible@[j] != *who,
            decreases self.eligible@.len() - i,
        {
            if compare_ids(&self.eligible[i], who) == 0 {
                return true;
            }
            i = i + 1;
        }
        false
    }
}

/// Inserting `id` at the first position not below it keeps a strictly
/// sorted list strictly sorted, when `id` is not already there.
proof fn lemma_insert_keeps_sorted(s: Seq<CharacterIdBytes>, id: CharacterIdBytes, pos: int)
    requires
        0 <= pos <= s.len(),
        spec_strictly_sorted(s),
        forall|j: int| 0 <= j < pos ==> spec_id_lt(s[j], id),
        pos < s.len() ==> spec_id_lt(id, s[pos]),
    ensures
        spec_strictly_sorted(s.insert(pos, id)),
{
    let t = s.insert(pos, id);
    assert forall|i: int, j: int| 0 <= i < j < t.len() implies spec_id_lt(t[i], t[j]) by {
        if j < pos {
        } else if j == pos {
        } else if i < pos {
            assert(t[j] == s[j - 1]);
        } else if i == pos {
            assert(t[j] == s[j - 1]);
            if j - 1 > pos {
                lemma_id_lt_transitive(id, s[pos], s[j - 1]);
            }
        } else {
            assert(t[i] == s[i - 1]);
            assert(t[j] == s[j - 1]);
        }
    }
}

/// Byte-wise order is transitive.
proof fn lemma_id_lt_transitive(a: CharacterIdBytes, b: CharacterIdBytes, c: CharacterIdBytes)
    requires
        spec_id_lt(a, b),
        spec_id_lt(b, c),
    ensures
        spec_id_lt(a, c),
{
    let k1 = choose|k: int| 0 <= k < 16 && a@[k] < b@[k] && forall|j: int| 0 <= j < k ==> a@[j] == b@[j];
    let k2 = choose|k: int| 0 <= k < 16 && b@[k] < c@[k] && forall|j: int| 0 <= j < k ==> b@[j] == c@[j];
    let k = if k1 < k2 { k1 } else { k2 };
    assert(a@[k] < c@[k]);
    assert(forall|j: int| 0 <= j < k ==> a@[j] == c@[j]);
}

/// A rolled drop.
#[derive(Clone, Debug)]
pub struct Item {
    pub base: BaseItem,
    pub rarity: Rarity,
    pub ilvl: u32,
    pub affixes: Vec<RolledAffix>,
    /// Rare Legendary-only trait: the item survives the wipe-on-death
    /// floor reset.
    pub anchored: bool,
    /// Picked up inside an active rift and not yet stabilised by
    /// extraction; never persisted.
    pub unstable: bool,
    /// Who may pick the item up from the ground.
    pub provenance: Option<LootProvenance>,
    /// Stable id of the authored unique a Legendary matched.
    pub unique_id: Option<&'static str>,
    /// Pool index sampled at roll time for uniques that pick one.
    pub unique_pick: Option<u8>,
    /// Rift-touched bonus line from a deep-floor kill.
    pub rift_touched: Option<RolledRiftTouched>,
    /// The one affix slot the anvil has rerolled; once set, only that
    /// slot may be rerolled again.
    pub enchanted_affix_index: Option<u8>,
}

/// The highest `min_ilvl` among rolled affixes (0 when there are none).
pub open spec fn spec_max_affix_min_ilvl(affixes: Seq<RolledAffix>) -> u32
    decreases affixes.len(),
{
    if affixes.len() == 0 {
        0
    } else {
        let rest = spec_max_affix_min_ilvl(affixes.drop_last());
        let last = affixes.last().def.min_ilvl;
        if last > rest {
            last
        } else {
            rest
        }
    }
}

/// The minimum character level that may equip an item: the larger of
/// its item level and the highest affix `min_ilvl`, and at least 1.
pub open spec fn spec_required_level(ilvl: u32, affixes: Seq<RolledAffix>) -> u32 {
    let m = spec_max_affix_min_ilvl(affixes);
    let from_ilvl = if ilvl > 1 { ilvl } else { 1u32 };
    if m > from_ilvl {
        m
    } else {
        from_ilvl
    }
}

impl Item {
    /// Bag-grid footprint `(width_cells, height_cells)`.
    pub fn footprint(&self) -> (r: (u8, u8))
        ensures
            r == self.base.equip_slot.spec_inventory_size(),
    {
        self.base.equip_slot.inventory_size()
    }

    /// Minimum character level required to equip this item.
    pub fn required_level(&self) -> (r: u32)
        ensures
            r == spec_required_level(self.ilvl, self.affixes@),
            r >= 1,
            r >= self.ilvl,
            forall|i: int| 0 <= i < self.affixes@.len() ==> r >= #[trigger] self.affixes@[i].def.min_ilvl,
    {
        let mut m: u32 = 0;
        let mut i: usize = 0;
        while i < self.affixes.len()
            invariant
                i <= self.affixes@.len(),
                m == spec_max_affix_min_ilvl(self.affixes@.subrange(0, i as int)),
            decreases self.affixes@.len() - i,
        {
            proof {
                assert(self.affixes@.subrange(0, i + 1).drop_last() =~= self.affixes@.subrange(0, i as int));
            }
            let v = self.affixes[i].def.min_ilvl;
            if v > m {
                m = v;
            }
            i = i + 1;
        }
        proof {
            assert(self.affixes@.subrange(0, self.affixes@.len() as int) =~= self.affixes@);
            lemma_max_min_ilvl_bounds(self.affixes@);
        }
        let from_ilvl = if self.ilvl > 1 { self.ilvl } else { 1 };
        if m > from_ilvl {
            m
        } else {
            from_ilvl
        }
    }
}

/// The running maximum bounds every affix's `min_ilvl`.
proof fn lemma_max_min_ilvl_bounds(affixes: Seq<RolledAffix>)
    ensures
        forall|i: int| 0 <= i < affixes.len() ==> spec_max_affix_min_ilvl(affixes) >= #[trigger] affixes[i].def.min_ilvl,
    decreases affixes.len(),
{
    if affixes.len() > 0 {
        lemma_max_min_ilvl_bounds(affixes.drop_last());
        assert forall|i: int| 0 <= i < affixes.len() implies spec_max_affix_min_ilvl(affixes) >= #[trigger] affixes[i].def.min_ilvl by {
            if i < affixes.len() - 1 {
                assert(affixes.drop_last()[i] == affixes[i]);
            }
        }
    }
}

} // verus!

//! Wire and persistence forms of an [`Item`].
//!
//! The wire form keys bases and affixes by their position in the
//! in-process tables (bases by catalogue row, affixes by the main pool
//! followed by the resonance pool); the persisted form keys them by
//! stable string id so saved rows survive a rebuild that reorders the
//! tables. Magnitudes travel as `f32` bit patterns.

use vstd::prelude::*;

use super::affixes::{
    affix_def_by_wire_index, lookup, rift_touched_pool, spec_affix_pool, spec_all_affixes, spec_find_id,
    spec_resonance_pool, spec_rift_touched_pool, spec_wire_space, wire_index_for_affix, AffixDef,
};
use super::item::{Item, LootProvenance, RolledAffix, RolledRiftTouched};
use super::items::{base_item, spec_base_item, BaseItem, BASE_ITEM_COUNT};
use super::rarity::Rarity;
use super::roll::{spec_lines_ok, RollPlan};
use super::uniques::{find, spec_find_unique, spec_uniques};

verus! {

/// The first catalogue row at or after `from` whose id is `id`.
pub open spec fn spec_base_index_of(id: Seq<char>, from: int) -> Option<int>
    decreases BASE_ITEM_COUNT - from,
{
    if from < 0 || from >= BASE_ITEM_COUNT {
        None
    } else if spec_base_item(from).id@ == id {
        Some(from)
    } else {
        spec_base_index_of(id, from + 1)
    }
}

/// A found row lies in the catalogue and carries the id.
proof fn lemma_base_index_of(id: Seq<char>, from: int)
    requires
        0 <= from,
    ensures
        spec_base_index_of(id, from) matches Some(k) ==> from <= k < BASE_ITEM_COUNT && spec_base_item(k).id@ == id,
    decreases BASE_ITEM_COUNT - from,
{
    if from < BASE_ITEM_COUNT && spec_base_item(from).id@ != id {
        lemma_base_index_of(id, from + 1);
    }
}

/// The catalogue row of the first base whose id is `id`.
pub fn base_index_of(id: &str) -> (r: Option<usize>)
    ensures
        match r {
            Some(k) => spec_base_index_of(id@, 0) == Some(k as int),
            None => spec_base_index_of(id@, 0) is None,
        },
{
    let mut k: usize = 0;
    while k < BASE_ITEM_COUNT
        invariant
            k <= BASE_ITEM_COUNT,
            spec_base_index_of(id@, 0) == spec_base_index_of(id@, k as int),
        decreases BASE_ITEM_COUNT - k,
    {
        let b = base_item(k);
        if crate::text::str_eq(b.id, id) {
            return Some(k);
        }
        k = k + 1;
    }
    None
}

/// The first catalogue base whose id is `id`.
pub fn find_base(id: &str) -> (r: Option<BaseItem>)
    ensures
        match spec_base_index_of(id@, 0) {
            Some(k) => r == Some(spec_base_item(k)),
            None => r is None,
        },
{
    proof {
        lemma_base_index_of(id@, 0);
    }
    match base_index_of(id) {
        Some(k) => Some(base_item(k)),
        None => None,
    }
}

/// The wire form of an item: base row, rarity byte, item level (to 16
/// bits), `(wire index, value bits)` per affix, Anchored, unique id and
/// pick.
pub type WireItem = (u16, u8, u16, Vec<(u16, u32)>, bool, Option<&'static str>, Option<u8>);

/// The persisted form: as the wire form, keyed by string ids.
pub type PersistedItem = (String, u8, u16, Vec<(String, u32)>, bool, Option<String>, Option<u8>);

/// The first wire index whose row carries `id`.
pub open spec fn spec_wire_index_of(id: Seq<char>) -> Option<int> {
    if exists|k: int| 0 <= k < spec_wire_space().len() && spec_wire_space()[k].id@ == id {
        Some(
            choose|k: int|
                0 <= k < spec_wire_space().len() && spec_wire_space()[k].id@ == id && forall|j: int|
                    0 <= j < k ==> spec_wire_space()[j].id@ != id,
        )
    } else {
        None
    }
}

/// An item can be put on the wire: its base is a catalogue row's id
/// and every affix id occurs in the wire space.
pub open spec fn spec_wire_encodable(item: Item) -> bool {
    &&& spec_base_index_of(item.base.id@, 0) is Some
    &&& forall|i: int|
        0 <= i < item.affixes@.len() ==> exists|k: int|
            0 <= k < spec_wire_space().len() && spec_wire_space()[k].id@ == (#[trigger] item.affixes@[i]).def.id@
}

/// Truncate an item level to 16 bits.
fn ilvl_to_u16(ilvl: u32) -> (r: u16)
    ensures
        r == ilvl as u16,
{
    #[verifier::truncate]
    let r = ilvl as u16;
    r
}

impl Item {
    /// Pack the item into its wire form.
    pub fn to_wire(&self) -> (r: WireItem)
        requires
            spec_wire_encodable(*self),
        ensures
            spec_base_index_of(self.base.id@, 0) == Some(r.0 as int),
            r.1 == self.rarity.spec_rank(),
            r.2 == self.ilvl as u16,
            r.3@.len() == self.affixes@.len(),
            forall|i: int|
                0 <= i < self.affixes@.len() ==> {
                    let k = (#[trigger] r.3@[i]).0 as int;
                    &&& 0 <= k < spec_wire_space().len()
                    &&& spec_wire_space()[k].id@ == self.affixes@[i].def.id@
                    &&& forall|j: int| 0 <= j < k ==> spec_wire_space()[j].id@ != self.affixes@[i].def.id@
                    &&& r.3@[i].1 == self.affixes@[i].value_bits
                },
            r.4 == self.anchored,
            r.5 == self.unique_id,
            r.6 == self.unique_pick,
    {
        proof {
            lemma_base_index_of(self.base.id@, 0);
        }
        let base_id = match base_index_of(self.base.id) {
            Some(k) => k as u16,
            None => 0,
        };
        let mut affixes: Vec<(u16, u32)> = Vec::new();
        let mut i: usize = 0;
        while i < self.affixes.len()
            invariant
                spec_wire_encodable(*self),
                i <= self.affixes@.len(),
                affixes@.len() == i,
                forall|j: int|
                    0 <= j < i ==> {
                        let k = (#[trigger] affixes@[j]).0 as int;
                        &&& 0 <= k < spec_wire_space().len()
                        &&& spec_wire_space()[k].id@ == self.affixes@[j].def.id@
                        &&& forall|m: int| 0 <= m < k ==> spec_wire_space()[m].id@ != self.affixes@[j].def.id@
                        &&& affixes@[j].1 == self.affixes@[j].value_bits
                    },
            decreases self.affixes@.len() - i,
        {
            let a = self.affixes[i];
            let w = wire_index_for_affix(&a.def);
            proof {
                if w is None {
                    let k = choose|k: int|
                        0 <= k < spec_wire_space().len() && spec_wire_space()[k].id@ == self.affixes@[i as int].def.id@;
                    assert(spec_wire_space()[k].id@ != a.def.id@);
                }
            }
            let idx = match w {
                Some(x) => x,
                None => 0,
            };
            affixes.push((idx, a.value_bits));
            i = i + 1;
        }
        (base_id, self.rarity.rank(), ilvl_to_u16(self.ilvl), affixes, self.anchored, self.unique_id, self.unique_pick)
    }

    /// Rebuild an item from its wire form: `None` when the base row, the
    /// rarity byte or any affix index is out of range. The item comes out
    /// stable, without a rift-touched line or an enchanted slot.
    pub fn from_wire(
        base_id: u16,
        rarity_byte: u8,
        ilvl: u16,
        affixes: &[(u16, u32)],
        anchored: bool,
        provenance: Option<LootProvenance>,
        unique_id: Option<&'static str>,
        unique_pick: Option<u8>,
    ) -> (r: Option<Item>)
        ensures
            r is Some <==> (base_id as int) < BASE_ITEM_COUNT && Rarity::spec_from_rank(rarity_byte) is Some
                && forall|i: int| 0 <= i < affixes@.len() ==> ((#[trigger] affixes@[i]).0 as int) < spec_wire_space().len(),
            r matches Some(item) ==> {
                &&& item.base == spec_base_item(base_id as int)
                &&& Some(item.rarity) == Rarity::spec_from_rank(rarity_byte)
                &&& item.ilvl == ilvl as u32
                &&& item.affixes@.len() == affixes@.len()
                &&& forall|i: int|
                    0 <= i < affixes@.len() ==> (#[trigger] item.affixes@[i]).def == spec_wire_space()[affixes@[i].0 as int]
                        && item.affixes@[i].value_bits == affixes@[i].1
                &&& item.anchored == anchored
                &&& !item.unstable
                &&& item.provenance == provenance
                &&& item.unique_id == unique_id
                &&& item.unique_pick == unique_pick
                &&& item.rift_touched is None
                &&& item.enchanted_affix_index is None
            },
    {
        if base_id as usize >= BASE_ITEM_COUNT {
            return None;
        }
        let base = base_item(base_id as usize);
        let rarity = match Rarity::from_rank(rarity_byte) {
            Some(x) => x,
            None => return None,
        };
        let mut rolled: Vec<RolledAffix> = Vec::new();
        let mut i: usize = 0;
        while i < affixes.len()
            invariant
                i <= affixes@.len(),
                rolled@.len() == i,
                forall|j: int| 0 <= j < i ==> ((#[trigger] affixes@[j]).0 as int) < spec_wire_space().len(),
                forall|j: int|
                    0 <= j < i ==> (#[trigger] rolled@[j]).def == spec_wire_space()[affixes@[j].0 as int]
                        && rolled@[j].value_bits == affixes@[j].1,
            decreases affixes@.len() - i,
        {
            let (id, value_bits) = affixes[i];
            match affix_def_by_wire_index(id) {
                Some(def) => rolled.push(RolledAffix { def, value_bits }),
                None => {
                    return None;
                },
            }
            i = i + 1;
        }
        Some(Item {
            base,
            rarity,
            ilvl: ilvl as u32,
            affixes: rolled,
            anchored,
            unstable: false,
            provenance,
            unique_id,
            unique_pick,
            rift_touched: None,
            enchanted_affix_index: None,
        })
    }

    /// Pack the item into its persisted form, keyed by string ids.
    pub fn to_persisted(&self) -> (r: PersistedItem)
        ensures
            r.0@ == self.base.id@,
            r.1 == self.rarity.spec_rank(),
            r.2 == self.ilvl as u16,
            r.3@.len() == self.affixes@.len(),
            forall|i: int|
                0 <= i < self.affixes@.len() ==> (#[trigger] r.3@[i]).0@ == self.affixes@[i].def.id@ && r.3@[i].1
                    == self.affixes@[i].value_bits,
            r.4 == self.anchored,
            match self.unique_id {
                Some(u) => r.5 matches Some(s) && s@ == u@,
                None => r.5 is None,
            },
            r.6 == self.unique_pick,
    {
        let mut affixes: Vec<(String, u32)> = Vec::new();
        let mut i: usize = 0;
        while i < self.affixes.len()
            invariant
                i <= self.affixes@.len(),
                affixes@.len() == i,
                forall|j: int|
                    0 <= j < i ==> (#[trigger] affixes@[j]).0@ == self.affixes@[j].def.id@ && affixes@[j].1
                        == self.affixes@[j].value_bits,
            decreases self.affixes@.len() - i,
        {
            let a = self.affixes[i];
            affixes.push((a.def.id.to_owned(), a.value_bits));
            i = i + 1;
        }
        let unique = match self.unique_id {
            Some(u) => Some(u.to_owned()),
            None => None,
        };
        (self.base.id.to_owned(), self.rarity.rank(), ilvl_to_u16(self.ilvl), affixes, self.anchored, unique, self.unique_pick)
    }

    /// Rebuild an item from its persisted form: `None` when the base id,
    /// the rarity byte or any affix id is unknown. A unique id that no
    /// longer resolves degrades to `None` (the item loads as a procedural
    /// legendary). The item comes out stable, without a rift-touched line
    /// or an enchanted slot.
    pub fn from_persisted(
        base_id: &str,
        rarity_byte: u8,
        ilvl: u16,
        affixes: &[(String, u32)],
        anchored: bool,
        provenance: Option<LootProvenance>,
        unique_id: Option<&str>,
        unique_pick: Option<u8>,
    ) -> (r: Option<Item>)
        ensures
            r is Some <==> spec_base_index_of(base_id@, 0) is Some && Rarity::spec_from_rank(rarity_byte) is Some
                && forall|i: int|
                0 <= i < affixes@.len() ==> spec_find_id(spec_all_affixes(), (#[trigger] affixes@[i]).0@, 0) is Some,
            r matches Some(item) ==> {
                &&& item.base == spec_base_item(spec_base_index_of(base_id@, 0)->Some_0)
                &&& Some(item.rarity) == Rarity::spec_from_rank(rarity_byte)
                &&& item.ilvl == ilvl as u32
                &&& item.affixes@.len() == affixes@.len()
                &&& forall|i: int|
                    0 <= i < affixes@.len() ==> Some((#[trigger] item.affixes@[i]).def) == spec_find_id(
                        spec_all_affixes(),
                        affixes@[i].0@,
                        0,
                    ) && item.affixes@[i].value_bits == affixes@[i].1
                &&& item.anchored == anchored
                &&& !item.unstable
                &&& item.provenance == provenance
                &&& item.unique_id == (match unique_id {
                    Some(s) => match spec_find_unique(spec_uniques(), s@, 0) {
                        Some(u) => Some(u.id),
                        None => None,
                    },
                    None => None,
                })
                &&& item.unique_pick == unique_pick
                &&& item.rift_touched is None
                &&& item.enchanted_affix_index is None
            },
    {
        let base = match find_base(base_id) {
            Some(b) => b,
            None => return None,
        };
        let rarity = match Rarity::from_rank(rarity_byte) {
            Some(x) => x,
            None => return None,
        };
        let mut rolled: Vec<RolledAffix> = Vec::new();
        let mut i: usize = 0;
        while i < affixes.len()
            invariant
                i <= affixes@.len(),
                rolled@.len() == i,
                forall|j: int| 0 <= j < i ==> spec_find_id(spec_all_affixes(), (#[trigger] affixes@[j]).0@, 0) is Some,
                forall|j: int|
                    0 <= j < i ==> Some((#[trigger] rolled@[j]).def) == spec_find_id(spec_all_affixes(), affixes@[j].0@, 0)
                        && rolled@[j].value_bits == affixes@[j].1,
            decreases affixes@.len() - i,
        {
            match lookup(affixes[i].0.as_str()) {
                Some(def) => rolled.push(RolledAffix { def, value_bits: affixes[i].1 }),
                None => {
                    return None;
                },
            }
            i = i + 1;
        }
        let resolved = match unique_id {
            Some(s) => match find(s) {
                Some(u) => Some(u.id),
                None => None,
            },
            None => None,
        };
        Some(Item {
            base,
            rarity,
            ilvl: ilvl as u32,
            affixes: rolled,
            anchored,
            unstable: false,
            provenance,
            unique_id: resolved,
            unique_pick,
            rift_touched: None,
            enchanted_affix_index: None,
        })
    }

    /// The rift-touched line as `(pool index, value bits, depth)`: `None`
    /// without a line, or when its id is not in the rift-touched pool.
    pub fn rift_touched_to_wire(&self) -> (r: Option<(u16, u32, u16)>)
        ensures
            match self.rift_touched {
                None => r is None,
                Some(rt) => match r {
                    Some(t) => (t.0 as int) < spec_rift_touched_pool().len() && spec_rift_touched_pool()[t.0 as int].id@
                        == rt.def.id@ && (forall|j: int| 0 <= j < t.0 ==> spec_rift_touched_pool()[j].id@ != rt.def.id@)
                        && t.1 == rt.value_bits && t.2 == rt.depth,
                    None => forall|j: int|
                        0 <= j < spec_rift_touched_pool().len() ==> spec_rift_touched_pool()[j].id@ != rt.def.id@,
                },
            },
    {
        let rt = match self.rift_touched {
            Some(x) => x,
            None => return None,
        };
        let pool = rift_touched_pool();
        let mut k: usize = 0;
        while k < pool.len()
            invariant
                pool@ == spec_rift_touched_pool(),
                self.rift_touched == Some(rt),
                k <= pool@.len(),
                forall|j: int| 0 <= j < k ==> spec_rift_touched_pool()[j].id@ != rt.def.id@,
            decreases pool@.len() - k,
        {
            if crate::text::str_eq(pool[k].id, rt.def.id) {
                return Some((k as u16, rt.value_bits, rt.depth));
            }
            k = k + 1;
        }
        None
    }

    /// Inverse of [`Item::rift_touched_to_wire`]: `None` when there is no
    /// triple or its index is out of range.
    pub fn rift_touched_from_wire(triple: Option<(u16, u32, u16)>) -> (r: Option<RolledRiftTouched>)
        ensures
            match triple {
                None => r is None,
                Some(t) => if (t.0 as int) < spec_rift_touched_pool().len() {
                    r == Some(RolledRiftTouched { def: spec_rift_touched_pool()[t.0 as int], value_bits: t.1, depth: t.2 })
                } else {
                    r is None
                },
            },
    {
        let (idx, value_bits, depth) = match triple {
            Some(t) => t,
            None => return None,
        };
        let pool = rift_touched_pool();
        if (idx as usize) < pool.len() {
            Some(RolledRiftTouched { def: pool[idx as usize], value_bits, depth })
        } else {
            None
        }
    }

    /// The rift-touched line keyed by stable id, with its depth as a
    /// signed 16-bit value.
    pub fn rift_touched_to_persisted(&self) -> (r: Option<(String, u32, i16)>)
        ensures
            match self.rift_touched {
                None => r is None,
                Some(rt) => r matches Some(t) && t.0@ == rt.def.id@ && t.1 == rt.value_bits && t.2 == rt.depth as i16,
            },
    {
        match self.rift_touched {
            Some(rt) => {
                #[verifier::truncate]
                let d = rt.depth as i16;
                Some((rt.def.id.to_owned(), rt.value_bits, d))
            },
            None => None,
        }
    }

    /// Inverse of [`Item::rift_touched_to_persisted`]: looks the id up in
    /// the rift-touched pool (first match); `None` when there is no
    /// triple or the id is unknown. A negative depth reads as 0.
    pub fn rift_touched_from_persisted(triple: Option<(&str, u32, i16)>) -> (r: Option<RolledRiftTouched>)
        ensures
            match triple {
                None => r is None,
                Some(t) => match r {
                    Some(rt) => exists|k: int|
                        0 <= k < spec_rift_touched_pool().len() && spec_rift_touched_pool()[k] == rt.def
                            && spec_rift_touched_pool()[k].id@ == t.0@ && (forall|j: int|
                            0 <= j < k ==> spec_rift_touched_pool()[j].id@ != t.0@) && rt.value_bits == t.1
                            && rt.depth == (if t.2 < 0 { 0u16 } else { t.2 as u16 }),
                    None => forall|j: int| 0 <= j < spec_rift_touched_pool().len() ==> spec_rift_touched_pool()[j].id@ != t.0@,
                },
            },
    {
        let (id, value_bits, depth) = match triple {
            Some(t) => t,
            None => return None,
        };
        let pool = rift_touched_pool();
        let d: u16 = if depth < 0 { 0 } else { depth as u16 };
        let mut k: usize = 0;
        while k < pool.len()
            invariant
                pool@ == spec_rift_touched_pool(),
                triple == Some((id, value_bits, depth)),
                d == (if depth < 0 { 0u16 } else { depth as u16 }),
                k <= pool@.len(),
                forall|j: int| 0 <= j < k ==> spec_rift_touched_pool()[j].id@ != id@,
            decreases pool@.len() - k,
        {
            if crate::text::str_eq(pool[k].id, id) {
                return Some(RolledRiftTouched { def: pool[k], value_bits, depth: d });
            }
            k = k + 1;
        }
        None
    }
}

/// A freshly rolled item of a catalogue base can be put on the wire:
/// every line a roll plans comes from the main or the resonance pool,
/// and both lie in the wire space.
pub proof fn lemma_rolled_item_encodable(plan: RollPlan, item: Item)
    requires
        spec_base_index_of(plan.base.id@, 0) is Some,
        spec_lines_ok(plan.base, plan.lines@),
        item.base == plan.base,
        item.affixes@.len() == plan.lines@.len(),
        forall|i: int| 0 <= i < plan.lines@.len() ==> (#[trigger] item.affixes@[i]).def == plan.lines@[i].def,
    ensures
        spec_wire_encodable(item),
{
    let main = spec_affix_pool();
    let res = spec_resonance_pool();
    assert forall|i: int| 0 <= i < item.affixes@.len() implies exists|k: int|
        0 <= k < spec_wire_space().len() && spec_wire_space()[k].id@ == (#[trigger] item.affixes@[i]).def.id@ by {
        let d = plan.lines@[i].def;
        assert(item.affixes@[i].def == d);
        if main.contains(d) {
            let k = choose|k: int| 0 <= k < main.len() && main[k] == d;
            assert(spec_wire_space()[k] == main[k]);
        } else {
            assert(res.contains(d));
            let k = choose|k: int| 0 <= k < res.len() && res[k] == d;
            assert(spec_wire_space()[main.len() + k] == res[k]);
        }
    }
}

/// Putting an encodable item on the wire and reading it back gives the
/// same base id, rarity, affix ids and values, Anchored flag, unique id
/// and pick, and the item level as the wire carried it (truncated to 16
/// bits).
pub proof fn lemma_wire_round_trip(item: Item, wire: WireItem, back: Option<Item>)
    requires
        spec_wire_encodable(item),
        spec_base_index_of(item.base.id@, 0) == Some(wire.0 as int),
        wire.1 == item.rarity.spec_rank(),
        wire.2 == item.ilvl as u16,
        wire.3@.len() == item.affixes@.len(),
        forall|i: int|
            0 <= i < item.affixes@.len() ==> {
                let k = (#[trigger] wire.3@[i]).0 as int;
                &&& 0 <= k < spec_wire_space().len()
                &&& spec_wire_space()[k].id@ == item.affixes@[i].def.id@
                &&& wire.3@[i].1 == item.affixes@[i].value_bits
            },
        wire.4 == item.anchored,
        wire.5 == item.unique_id,
        wire.6 == item.unique_pick,
        back is Some <==> (wire.0 as int) < BASE_ITEM_COUNT && Rarity::spec_from_rank(wire.1) is Some
            && forall|i: int| 0 <= i < wire.3@.len() ==> ((#[trigger] wire.3@[i]).0 as int) < spec_wire_space().len(),
        back matches Some(b) ==> {
            &&& b.base == spec_base_item(wire.0 as int)
            &&& Some(b.rarity) == Rarity::spec_from_rank(wire.1)
            &&& b.ilvl == wire.2 as u32
            &&& b.affixes@.len() == wire.3@.len()
            &&& forall|i: int|
                0 <= i < wire.3@.len() ==> (#[trigger] b.affixes@[i]).def == spec_wire_space()[wire.3@[i].0 as int]
                    && b.affixes@[i].value_bits == wire.3@[i].1
            &&& b.anchored == wire.4
            &&& b.unique_id == wire.5
            &&& b.unique_pick == wire.6
        },
    ensures
        back is Some,
        match back {
            Some(b) => {
                &&& b.base.id@ == item.base.id@
                &&& b.rarity == item.rarity
                &&& b.ilvl == wire.2 as u32
                &&& b.affixes@.len() == item.affixes@.len()
                &&& forall|i: int|
                    0 <= i < item.affixes@.len() ==> (#[trigger] b.affixes@[i]).def.id@ == item.affixes@[i].def.id@
                        && b.affixes@[i].value_bits == item.affixes@[i].value_bits
                &&& b.anchored == item.anchored
                &&& b.unique_id == item.unique_id
                &&& b.unique_pick == item.unique_pick
            },
            None => false,
        },
{
    lemma_base_index_of(item.base.id@, 0);
    super::rarity::lemma_rarity_rank_round_trip(item.rarity);
    assert forall|i: int| 0 <= i < wire.3@.len() implies ((#[trigger] wire.3@[i]).0 as int) < spec_wire_space().len() by {
        assert(item.affixes@[i] == item.affixes@[i]);
    }
    let b = back->Some_0;
    assert(b.base.id@ == item.base.id@);
    assert(b.rarity == item.rarity);
    assert forall|i: int| 0 <= i < item.affixes@.len() implies (#[trigger] b.affixes@[i]).def.id@ == item.affixes@[i].def.id@
        && b.affixes@[i].value_bits == item.affixes@[i].value_bits by {
        assert(wire.3@[i] == wire.3@[i]);
    }
}


/// A search hit carries the searched id.
proof fn lemma_find_id_hit(pool: Seq<AffixDef>, id: Seq<char>, from: int)
    ensures
        spec_find_id(pool, id, from) matches Some(d) ==> d.id@ == id,
    decreases pool.len() - from,
{
    if 0 <= from < pool.len() && pool[from].id@ != id {
        lemma_find_id_hit(pool, id, from + 1);
    }
}

/// A unique search hit carries the searched id.
proof fn lemma_find_unique_hit(list: Seq<super::uniques::UniqueDef>, id: Seq<char>, from: int)
    ensures
        spec_find_unique(list, id, from) matches Some(u) ==> u.id@ == id,
    decreases list.len() - from,
{
    if 0 <= from < list.len() && list[from].id@ != id {
        lemma_find_unique_hit(list, id, from + 1);
    }
}

/// Persisting an item whose base, affix ids and unique id are all known
/// and loading it back gives the same base id, rarity, affix ids and
/// values, Anchored flag, unique id and pick, and the item level as
/// persisted (truncated to 16 bits).
pub proof fn lemma_persisted_round_trip(item: Item, row: PersistedItem, back: Option<Item>)
    requires
        spec_base_index_of(item.base.id@, 0) is Some,
        forall|i: int|
            0 <= i < item.affixes@.len() ==> spec_find_id(spec_all_affixes(), (#[trigger] item.affixes@[i]).def.id@, 0) is Some,
        item.unique_id matches Some(u) ==> spec_find_unique(spec_uniques(), u@, 0) is Some,
        row.0@ == item.base.id@,
        row.1 == item.rarity.spec_rank(),
        row.3@.len() == item.affixes@.len(),
        forall|i: int|
            0 <= i < item.affixes@.len() ==> (#[trigger] row.3@[i]).0@ == item.affixes@[i].def.id@ && row.3@[i].1
                == item.affixes@[i].value_bits,
        row.4 == item.anchored,
        match item.unique_id {
            Some(u) => row.5 matches Some(s) && s@ == u@,
            None => row.5 is None,
        },
        row.6 == item.unique_pick,
        back is Some <==> spec_base_index_of(row.0@, 0) is Some && Rarity::spec_from_rank(row.1) is Some
            && forall|i: int| 0 <= i < row.3@.len() ==> spec_find_id(spec_all_affixes(), (#[trigger] row.3@[i]).0@, 0) is Some,
        back matches Some(b) ==> {
            &&& b.base == spec_base_item(spec_base_index_of(row.0@, 0)->Some_0)
            &&& Some(b.rarity) == Rarity::spec_from_rank(row.1)
            &&& b.ilvl == row.2 as u32
            &&& b.affixes@.len() == row.3@.len()
            &&& forall|i: int|
                0 <= i < row.3@.len() ==> Some((#[trigger] b.affixes@[i]).def) == spec_find_id(spec_all_affixes(), row.3@[i].0@, 0)
                    && b.affixes@[i].value_bits == row.3@[i].1
            &&& b.anchored == row.4
            &&& b.unique_id == (match row.5 {
                Some(s) => match spec_find_unique(spec_uniques(), s@, 0) {
                    Some(u) => Some(u.id),
                    None => None,
                },
                None => None,
            })
            &&& b.unique_pick == row.6
        },
    ensures
        back is Some,
        match back {
            Some(b) => {
                &&& b.base.id@ == item.base.id@
                &&& b.rarity == item.rarity
                &&& b.ilvl == row.2 as u32
                &&& b.affixes@.len() == item.affixes@.len()
                &&& forall|i: int|
                    0 <= i < item.affixes@.len() ==> (#[trigger] b.affixes@[i]).def.id@ == item.affixes@[i].def.id@
                        && b.affixes@[i].value_bits == item.affixes@[i].value_bits
                &&& b.anchored == item.anchored
                &&& match item.unique_id {
                    Some(u) => b.unique_id matches Some(x) && x@ == u@,
                    None => b.unique_id is None,
                }
                &&& b.unique_pick == item.unique_pick
            },
            None => false,
        },
{
    lemma_base_index_of(item.base.id@, 0);
    super::rarity::lemma_rarity_rank_round_trip(item.rarity);
    assert forall|i: int| 0 <= i < row.3@.len() implies spec_find_id(spec_all_affixes(), (#[trigger] row.3@[i]).0@, 0) is Some by {
        assert(item.affixes@[i] == item.affixes@[i]);
    }
    let b = back->Some_0;
    assert forall|i: int| 0 <= i < item.affixes@.len() implies (#[trigger] b.affixes@[i]).def.id@ == item.affixes@[i].def.id@
        && b.affixes@[i].value_bits == item.affixes@[i].value_bits by {
        assert(row.3@[i] == row.3@[i]);
        lemma_find_id_hit(spec_all_affixes(), row.3@[i].0@, 0);
    }
    match item.unique_id {
        Some(u) => {
            lemma_find_unique_hit(spec_uniques(), u@, 0);
        },
        None => {},
    }
}

} // verus!

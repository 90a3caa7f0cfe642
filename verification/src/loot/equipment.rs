//! The equipped-items component: one optional item per equip slot.

use vstd::prelude::*;

use super::item::Item;
use super::items::EquipSlot;

verus! {

/// What a character wears, one optional item per [`EquipSlot`], indexed
/// by the slot's wire byte.
#[derive(Clone, Debug)]
pub struct Equipment {
    slots: [Option<Item>; 10],
}

impl View for Equipment {
    type V = Seq<Option<Item>>;

    closed spec fn view(&self) -> Seq<Option<Item>> {
        self.slots@
    }
}

/// The item a slot holds in a view.
pub open spec fn spec_slot_item(v: Seq<Option<Item>>, slot: EquipSlot) -> Option<Item> {
    v[slot.spec_to_u8() as int]
}

/// Whether an item may go in a slot: its own slot, with either ring slot
/// taking either ring.
pub open spec fn spec_accepts(slot: EquipSlot, item: Item) -> bool {
    let want = item.base.equip_slot;
    if (slot == EquipSlot::Ring1 || slot == EquipSlot::Ring2) && (want == EquipSlot::Ring1 || want
        == EquipSlot::Ring2) {
        true
    } else {
        slot == want
    }
}

/// Where an item goes by default: its own slot, except that a ring goes
/// to the first free ring slot (`Ring1` when both are taken).
pub open spec fn spec_default_slot(v: Seq<Option<Item>>, item: Item) -> EquipSlot {
    match item.base.equip_slot {
        EquipSlot::Ring1 | EquipSlot::Ring2 => if spec_slot_item(v, EquipSlot::Ring1) is None {
            EquipSlot::Ring1
        } else if spec_slot_item(v, EquipSlot::Ring2) is None {
            EquipSlot::Ring2
        } else {
            EquipSlot::Ring1
        },
        other => other,
    }
}

/// The slots among the first `n` of `order` that hold an item in `v`,
/// in that order.
pub open spec fn spec_filled_slots(v: Seq<Option<Item>>, order: Seq<EquipSlot>, n: int) -> Seq<EquipSlot>
    decreases n,
{
    if n <= 0 {
        Seq::empty()
    } else {
        let p = spec_filled_slots(v, order, n - 1);
        if v[order[n - 1].spec_to_u8() as int] is Some {
            p.push(order[n - 1])
        } else {
            p
        }
    }
}

/// Number of occupied slots in a view.
pub open spec fn spec_count(v: Seq<Option<Item>>) -> nat {
    v.filter(|o: Option<Item>| o is Some).len()
}

proof fn lemma_slot_index(slot: EquipSlot)
    ensures
        0 <= slot.spec_to_u8() < 10,
{
}

impl Equipment {
    /// Nothing equipped.
    pub fn new() -> (r: Equipment)
        ensures
            r@.len() == 10,
            forall|i: int| 0 <= i < 10 ==> (#[trigger] r@[i]) is None,
    {
        Equipment { slots: [None, None, None, None, None, None, None, None, None, None] }
    }

    /// The item in `slot`, if any.
    pub fn get(&self, slot: EquipSlot) -> (r: Option<&Item>)
        ensures
            match r {
                Some(it) => spec_slot_item(self@, slot) == Some(*it),
                None => spec_slot_item(self@, slot) is None,
            },
    {
        proof {
            lemma_slot_index(slot);
        }
        let i = slot.to_u8() as usize;
        match &self.slots[i] {
            Some(it) => Some(it),
            None => None,
        }
    }

    /// Put `item` (or nothing) in `slot`, returning what was there.
    pub fn set(&mut self, slot: EquipSlot, item: Option<Item>) -> (r: Option<Item>)
        ensures
            r == spec_slot_item(old(self)@, slot),
            final(self)@ == old(self)@.update(slot.spec_to_u8() as int, item),
    {
        proof {
            lemma_slot_index(slot);
        }
        let i = slot.to_u8() as usize;
        let mut out = item;
        std::mem::swap(&mut self.slots[i], &mut out);
        out
    }

    /// Empty `slot`, returning what was there.
    pub fn take(&mut self, slot: EquipSlot) -> (r: Option<Item>)
        ensures
            r == spec_slot_item(old(self)@, slot),
            final(self)@ == old(self)@.update(slot.spec_to_u8() as int, None),
    {
        self.set(slot, None)
    }

    /// Every `(slot, item)` pair currently filled, in
    /// [`EquipSlot::all`] order.
    pub fn iter(&self) -> (r: Vec<(EquipSlot, &Item)>)
        ensures
            r@.len() == spec_filled_slots(self@, EquipSlot::spec_all(), 10).len(),
            forall|k: int| 0 <= k < r@.len() ==> {
                &&& (#[trigger] r@[k]).0 == spec_filled_slots(self@, EquipSlot::spec_all(), 10)[k]
                &&& spec_slot_item(self@, r@[k].0) == Some(*r@[k].1)
            },
    {
        let all = EquipSlot::all();
        let mut out: Vec<(EquipSlot, &Item)> = Vec::new();
        let mut i: usize = 0;
        while i < 10
            invariant
                i <= 10,
                all@ == EquipSlot::spec_all(),
                out@.len() == spec_filled_slots(self@, EquipSlot::spec_all(), i as int).len(),
                forall|k: int| 0 <= k < out@.len() ==> {
                    &&& (#[trigger] out@[k]).0 == spec_filled_slots(self@, EquipSlot::spec_all(), i as int)[k]
                    &&& spec_slot_item(self@, out@[k].0) == Some(*out@[k].1)
                },
            decreases 10 - i,
        {
            let slot = all[i];
            match self.get(slot) {
                Some(it) => out.push((slot, it)),
                None => {},
            }
            i = i + 1;
        }
        out
    }

    /// Number of occupied slots.
    pub fn count(&self) -> (r: usize)
        ensures
            r == spec_count(self@),
    {
        let ghost p = |o: Option<Item>| o is Some;
        let mut n: usize = 0;
        let mut i: usize = 0;
        while i < 10
            invariant
                i <= 10,
                self@.len() == 10,
                p == (|o: Option<Item>| o is Some),
                n == self@.take(i as int).filter(p).len(),
                n <= i,
            decreases 10 - i,
        {
            proof {
                reveal(Seq::filter);
                assert(self@.take(i + 1).drop_last() =~= self@.take(i as int));
                assert(self@[i as int] == self.slots[i as int]);
            }
            if self.slots[i].is_some() {
                n = n + 1;
            }
            i = i + 1;
        }
        proof {
            assert(self@.take(10) =~= self@);
        }
        n
    }

    /// Whether `item` may go in `slot`.
    pub fn accepts(slot: EquipSlot, item: &Item) -> (r: bool)
        ensures
            r == spec_accepts(slot, *item),
    {
        let want = item.base.equip_slot;
        if (slot == EquipSlot::Ring1 || slot == EquipSlot::Ring2) && (want == EquipSlot::Ring1 || want
            == EquipSlot::Ring2) {
            true
        } else {
            slot == want
        }
    }

    /// The slot `item` goes in by default.
    pub fn default_slot(&self, item: &Item) -> (r: EquipSlot)
        ensures
            r == spec_default_slot(self@, *item),
    {
        match item.base.equip_slot {
            EquipSlot::Ring1 | EquipSlot::Ring2 => {
                if self.slots[6].is_none() {
                    EquipSlot::Ring1
                } else if self.slots[7].is_none() {
                    EquipSlot::Ring2
                } else {
                    EquipSlot::Ring1
                }
            },
            other => other,
        }
    }
}

} // verus!

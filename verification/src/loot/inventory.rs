//! Per-player inventory: the equipped loadout plus an unsorted bag.

use vstd::prelude::*;
use vstd::multiset::Multiset;

use super::equipment::spec_filled_slots;
use super::item::Item;
use super::items::EquipSlot;

pub use super::items::default_slot_for;

verus! {

/// Every slot a [`Loadout`] walks for stats and ability mods, in order.
pub open spec fn spec_all_slots() -> Seq<EquipSlot> {
    seq![
        EquipSlot::Weapon,
        EquipSlot::Helm,
        EquipSlot::Chest,
        EquipSlot::Legs,
        EquipSlot::Hands,
        EquipSlot::Boots,
        EquipSlot::Ring1,
        EquipSlot::Ring2,
        EquipSlot::Amulet,
    ]
}

pub fn all_slots() -> (r: &'static [EquipSlot])
    ensures
        r@ == spec_all_slots(),
{
    let r: &'static [EquipSlot] = &[
        EquipSlot::Weapon,
        EquipSlot::Helm,
        EquipSlot::Chest,
        EquipSlot::Legs,
        EquipSlot::Hands,
        EquipSlot::Boots,
        EquipSlot::Ring1,
        EquipSlot::Ring2,
        EquipSlot::Amulet,
    ];
    assert(r@ =~= spec_all_slots());
    r
}

/// What's currently equipped, one optional item per slot, indexed by
/// the slot's wire byte.
#[derive(Clone, Debug)]
pub struct Loadout {
    slots: [Option<Item>; 10],
}

/// An optional item as a multiset of zero or one item.
pub open spec fn spec_opt_items(o: Option<Item>) -> Multiset<Item> {
    match o {
        Some(x) => Multiset::singleton(x),
        None => Multiset::empty(),
    }
}

/// The items held in a sequence of optional slots, as a multiset.
pub open spec fn spec_slots_items(v: Seq<Option<Item>>) -> Multiset<Item>
    decreases v.len(),
{
    if v.len() == 0 {
        Multiset::empty()
    } else {
        spec_slots_items(v.drop_last()).add(spec_opt_items(v.last()))
    }
}

/// Replacing one slot swaps that slot's item for the new one in the
/// multiset.
proof fn lemma_slots_items_update(v: Seq<Option<Item>>, k: int, x: Option<Item>)
    requires
        0 <= k < v.len(),
    ensures
        spec_slots_items(v.update(k, x)).add(spec_opt_items(v[k])) =~= spec_slots_items(v).add(spec_opt_items(x)),
    decreases v.len(),
{
    broadcast use {vstd::multiset::group_multiset_axioms, vstd::multiset::group_multiset_properties};

    let w = v.update(k, x);
    assert(spec_slots_items(w) == spec_slots_items(w.drop_last()).add(spec_opt_items(w.last())));
    assert(spec_slots_items(v) == spec_slots_items(v.drop_last()).add(spec_opt_items(v.last())));
    if k == v.len() - 1 {
        assert(w.drop_last() =~= v.drop_last());
        assert(w.last() == x);
        assert(v.last() == v[k]);
        let a = spec_slots_items(v.drop_last());
        assert(a.add(spec_opt_items(x)).add(spec_opt_items(v[k])) =~= a.add(spec_opt_items(v[k])).add(
            spec_opt_items(x),
        ));
    } else {
        assert(w.drop_last() =~= v.drop_last().update(k, x));
        assert(w.last() == v.last());
        assert(v.drop_last()[k] == v[k]);
        lemma_slots_items_update(v.drop_last(), k, x);
        let a = spec_slots_items(w.drop_last());
        let b = spec_slots_items(v.drop_last());
        assert(a.add(spec_opt_items(v[k])) =~= b.add(spec_opt_items(x)));
        assert(a.add(spec_opt_items(v.last())).add(spec_opt_items(v[k])) =~= a.add(spec_opt_items(v[k])).add(
            spec_opt_items(v.last()),
        ));
        assert(b.add(spec_opt_items(x)).add(spec_opt_items(v.last())) =~= b.add(spec_opt_items(v.last())).add(
            spec_opt_items(x),
        ));
    }
}

impl View for Loadout {
    type V = Seq<Option<Item>>;

    closed spec fn view(&self) -> Seq<Option<Item>> {
        self.slots@
    }
}

impl Loadout {
    /// The item in `slot`, if any.
    pub open spec fn item_in(&self, slot: EquipSlot) -> Option<Item> {
        self@[slot.spec_to_u8() as int]
    }

    /// Every equipped item, as a multiset.
    pub open spec fn items(&self) -> Multiset<Item> {
        spec_slots_items(self@)
    }

    /// Nothing equipped.
    pub fn new() -> (r: Loadout)
        ensures
            r@.len() == 10,
            forall|i: int| 0 <= i < 10 ==> (#[trigger] r@[i]) is None,
            r.items() =~= Multiset::empty(),
    {
        let r = Loadout { slots: [None, None, None, None, None, None, None, None, None, None] };
        proof {
            reveal_with_fuel(spec_slots_items, 11);
            assert(r@.drop_last().drop_last().drop_last().drop_last().drop_last().drop_last().drop_last().drop_last().drop_last().drop_last().len() == 0);
        }
        r
    }

    /// The item in `slot`, if any.
    pub fn get(&self, slot: EquipSlot) -> (r: Option<&Item>)
        ensures
            match r {
                Some(it) => self.item_in(slot) == Some(*it),
                None => self.item_in(slot) is None,
            },
    {
        let i = slot.to_u8() as usize;
        match &self.slots[i] {
            Some(it) => Some(it),
            None => None,
        }
    }

    /// Every `(slot, item)` pair currently filled, in [`all_slots`]
    /// order.
    pub fn iter(&self) -> (r: Vec<(EquipSlot, &Item)>)
        ensures
            r@.len() == spec_filled_slots(self@, spec_all_slots(), 9).len(),
            forall|k: int| 0 <= k < r@.len() ==> {
                &&& (#[trigger] r@[k]).0 == spec_filled_slots(self@, spec_all_slots(), 9)[k]
                &&& self.item_in(r@[k].0) == Some(*r@[k].1)
            },
    {
        let all = all_slots();
        let mut out: Vec<(EquipSlot, &Item)> = Vec::new();
        let mut i: usize = 0;
        while i < 9
            invariant
                i <= 9,
                all@ == spec_all_slots(),
                out@.len() == spec_filled_slots(self@, spec_all_slots(), i as int).len(),
                forall|k: int| 0 <= k < out@.len() ==> {
                    &&& (#[trigger] out@[k]).0 == spec_filled_slots(self@, spec_all_slots(), i as int)[k]
                    &&& self.item_in(out@[k].0) == Some(*out@[k].1)
                },
            decreases 9 - i,
        {
            let slot = all[i];
            match self.get(slot) {
                Some(it) => out.push((slot, it)),
                None => {},
            }
            i = i + 1;
        }
        out
    }

    /// Put `item` (or nothing) in `slot`, returning what was there; the
    /// other slots are untouched.
    pub fn set(&mut self, slot: EquipSlot, item: Option<Item>) -> (r: Option<Item>)
        ensures
            r == old(self).item_in(slot),
            final(self)@ == old(self)@.update(slot.spec_to_u8() as int, item),
            final(self).items().add(spec_opt_items(r)) =~= old(self).items().add(spec_opt_items(item)),
    {
        let i = slot.to_u8() as usize;
        let mut out = item;
        std::mem::swap(&mut self.slots[i], &mut out);
        proof {
            lemma_slots_items_update(old(self)@, i as int, item);
        }
        out
    }
}

/// Whether `item` may be equipped into `slot`: its own slot, with the
/// two ring slots interchangeable.
pub open spec fn spec_can_equip(item: Item, slot: EquipSlot) -> bool {
    let target = item.base.equip_slot;
    target == slot || (target == EquipSlot::Ring1 && slot == EquipSlot::Ring2) || (target == EquipSlot::Ring2
        && slot == EquipSlot::Ring1)
}

pub fn can_equip(item: &Item, slot: EquipSlot) -> (r: bool)
    ensures
        r == spec_can_equip(*item, slot),
{
    let target = item.base.equip_slot;
    if target == slot {
        return true;
    }
    (target == EquipSlot::Ring1 && slot == EquipSlot::Ring2) || (target == EquipSlot::Ring2 && slot
        == EquipSlot::Ring1)
}

/// Per-player inventory: the equipped loadout plus the bag.
#[derive(Clone, Debug)]
pub struct Inventory {
    pub equipped: Loadout,
    pub bag: Vec<Item>,
}

/// Every item a player holds, bag and equipped together.
pub open spec fn spec_all_items(inv: Inventory) -> Multiset<Item> {
    inv.bag@.to_multiset().add(inv.equipped.items())
}

/// Removing an element by swapping the last one into its place removes
/// exactly that element from the multiset.
proof fn lemma_swap_remove_multiset(s: Seq<Item>, i: int)
    requires
        0 <= i < s.len(),
    ensures
        s.update(i, s.last()).drop_last().to_multiset() =~= s.to_multiset().remove(s[i]),
{
    broadcast use vstd::seq_lib::group_to_multiset_ensures;

    let n = s.len();
    let y = s.last();
    let w = s.update(i, y);
    let t = w.drop_last();
    if i == n - 1 {
        assert(t =~= s.remove(i));
    } else {
        assert(w.remove(i) =~= s.remove(i));
        assert(w.remove(n - 1) =~= t);
        assert(w[i] == y);
        assert(w[n - 1] == y);
        assert(w.remove(i).to_multiset() =~= w.to_multiset().remove(w[i]));
        assert(w.remove(n - 1).to_multiset() =~= w.to_multiset().remove(w[n - 1]));
        assert(s.remove(i).to_multiset() =~= s.to_multiset().remove(s[i]));
    }
}

impl Inventory {
    /// An empty inventory.
    pub fn new() -> (r: Inventory)
        ensures
            r.bag@.len() == 0,
            r.equipped@.len() == 10,
            forall|i: int| 0 <= i < 10 ==> (#[trigger] r.equipped@[i]) is None,
            spec_all_items(r) =~= Multiset::empty(),
    {
        proof {
            broadcast use vstd::seq_lib::group_to_multiset_ensures;
        }
        let r = Inventory { equipped: Loadout::new(), bag: Vec::new() };
        proof {
            assert(r.bag@.to_multiset().len() == 0);
        }
        r
    }

    /// Put an item into the bag.
    pub fn pick_up(&mut self, item: Item)
        ensures
            final(self).bag@ == old(self).bag@.push(item),
            final(self).equipped == old(self).equipped,
            spec_all_items(*final(self)) =~= spec_all_items(*old(self)).insert(item),
    {
        proof {
            broadcast use vstd::seq_lib::group_to_multiset_ensures;
        }
        self.bag.push(item);
    }

    /// Move `bag[bag_index]` into `slot`. Refused (returns `false`, no
    /// change) when the index is out of range or the item does not fit
    /// the slot. On success the item leaves the bag by swap-remove, any
    /// previously equipped item goes to the end of the bag, and nothing
    /// is lost or duplicated.
    pub fn equip_from_bag(&mut self, bag_index: usize, slot: EquipSlot) -> (r: bool)
        ensures
            r == (bag_index < old(self).bag@.len() && spec_can_equip(old(self).bag@[bag_index as int], slot)),
            !r ==> *final(self) == *old(self),
            r ==> {
                let item = old(self).bag@[bag_index as int];
                let rest = old(self).bag@.update(bag_index as int, old(self).bag@.last()).drop_last();
                &&& final(self).equipped@ == old(self).equipped@.update(slot.spec_to_u8() as int, Some(item))
                &&& final(self).bag@ == match old(self).equipped.item_in(slot) {
                    Some(prev) => rest.push(prev),
                    None => rest,
                }
            },
            spec_all_items(*final(self)) =~= spec_all_items(*old(self)),
    {
        if bag_index >= self.bag.len() {
            return false;
        }
        if !can_equip(&self.bag[bag_index], slot) {
            return false;
        }
        proof {
            broadcast use vstd::seq_lib::group_to_multiset_ensures;
            broadcast use {vstd::multiset::group_multiset_axioms, vstd::multiset::group_multiset_properties};
            lemma_swap_remove_multiset(self.bag@, bag_index as int);
        }
        let ghost b0 = self.bag@.to_multiset();
        let ghost e0 = self.equipped.items();
        let ghost old_bag = self.bag@;
        let item = self.bag.swap_remove(bag_index);
        let ghost b1 = self.bag@.to_multiset();
        let prev = self.equipped.set(slot, Some(item));
        let ghost e1 = self.equipped.items();
        let ghost prev_g = prev;
        match prev {
            Some(p) => {
                self.bag.push(p);
            },
            None => {},
        }
        proof {
            broadcast use vstd::seq_lib::group_to_multiset_ensures;
            broadcast use {vstd::multiset::group_multiset_axioms, vstd::multiset::group_multiset_properties};
            assert(b1 =~= b0.remove(item));
            assert(old_bag[bag_index as int] == item);
            assert(old_bag.contains(item));
            assert(b0.count(item) > 0);
            assert(e1.add(spec_opt_items(prev_g)) =~= e0.add(Multiset::singleton(item)));
            match prev_g {
                Some(p) => {
                    assert(self.bag@.to_multiset() =~= b1.insert(p));
                    assert(b1.insert(p).add(e1) =~= b1.add(e1.add(Multiset::singleton(p))));
                    assert(b1.add(e0.add(Multiset::singleton(item))) =~= b0.add(e0));
                },
                None => {
                    assert(e1 =~= e0.add(Multiset::singleton(item)));
                    assert(b1.add(e1) =~= b0.add(e0));
                },
            }
        }
        true
    }

    /// Move the item in `slot` to the end of the bag; `false` (no change)
    /// when the slot is empty. Nothing is lost or duplicated.
    pub fn unequip(&mut self, slot: EquipSlot) -> (r: bool)
        ensures
            r == old(self).equipped.item_in(slot) is Some,
            final(self).equipped@ == old(self).equipped@.update(slot.spec_to_u8() as int, None),
            final(self).bag@ == match old(self).equipped.item_in(slot) {
                Some(it) => old(self).bag@.push(it),
                None => old(self).bag@,
            },
            spec_all_items(*final(self)) =~= spec_all_items(*old(self)),
    {
        proof {
            broadcast use vstd::seq_lib::group_to_multiset_ensures;
            broadcast use {vstd::multiset::group_multiset_axioms, vstd::multiset::group_multiset_properties};
        }
        let ghost b0 = self.bag@.to_multiset();
        let ghost e0 = self.equipped.items();
        let r = self.equipped.set(slot, None);
        let ghost e1 = self.equipped.items();
        proof {
            assert(e1.add(spec_opt_items(r)) =~= e0.add(Multiset::empty()));
        }
        match r {
            Some(item) => {
                self.bag.push(item);
                proof {
                    assert(self.bag@.to_multiset() =~= b0.insert(item));
                    assert(b0.insert(item).add(e1) =~= b0.add(e1.add(Multiset::singleton(item))));
                }
                true
            },
            None => {
                proof {
                    broadcast use {vstd::multiset::group_multiset_axioms, vstd::multiset::group_multiset_properties};
                    assert(spec_opt_items(r) =~= Multiset::empty());
                    assert(e1.add(Multiset::empty()) =~= e1);
                    assert(e0.add(Multiset::empty()) =~= e0);
                    assert(e1 =~= e0);
                }
                false
            },
        }
    }
}

} // verus!

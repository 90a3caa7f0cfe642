//! Per-enemy loot tables: what a monster kill can drop.
//!
//! A [`LootTable`] gives the chance of any drop, the weighted rarity
//! distribution, weighted [`LootEntry`] candidates (each a selector over
//! the base catalogue, with an optional rarity override and item-level
//! offset) and a number of guaranteed extra rolls. All randomness goes
//! through [`LootRng`], so a drop seeded the same way replays the same.

use vstd::prelude::*;

use crate::monsters::MonsterRole;
use super::affixes::{affix_pool, spec_affix_pool};
use super::items::{base_item, spec_base_item, BaseItem, ItemSlot, BASE_ITEM_COUNT};
use super::items::tag::{ANY_ELEMENT, CASTER, CRIT, DEFENSE, MELEE, SPEED, UTILITY};
use super::item::Item;
use super::rarity::Rarity;
use super::rng::{spec_weight_sum, spec_weighted_pick, spec_xorshift, LootRng};
use super::roll::{
    spec_arch_count, spec_attr_count, spec_axis_candidates, spec_elem_count, spec_has_axis, spec_legendary_ok, spec_lines_ok,
    spec_res_count, spec_roll, PlannedLine, RollPlan,
};
use super::affixes::AffixCategory;

verus! {

/// How a [`LootEntry`] picks a concrete base item.
#[derive(Clone, Copy, Debug)]
pub enum BaseItemSelector {
    /// Specific base item by id.
    Exact(&'static str),
    /// Any base whose slot kind passes the filter.
    SlotKind(SlotFilter),
    /// Any base whose `allowed_tags` share a bit with the mask.
    Tagged(u32),
}

/// A filter over item slots.
#[derive(Clone, Copy, Debug)]
pub enum SlotFilter {
    AnyWeapon,
    AnyArmor,
    AnyAccessory,
    /// Match an exact slot.
    Exact(ItemSlot),
}

/// Whether a slot passes a filter.
pub open spec fn spec_slot_filter_matches(filter: SlotFilter, slot: ItemSlot) -> bool {
    match filter {
        SlotFilter::AnyWeapon => slot is Weapon,
        SlotFilter::AnyArmor => slot is Armor,
        SlotFilter::AnyAccessory => slot is Accessory,
        SlotFilter::Exact(a) => a == slot,
    }
}

pub fn slot_filter_matches(filter: SlotFilter, slot: ItemSlot) -> (r: bool)
    ensures
        r == spec_slot_filter_matches(filter, slot),
{
    match (filter, slot) {
        (SlotFilter::AnyWeapon, ItemSlot::Weapon(_)) => true,
        (SlotFilter::AnyArmor, ItemSlot::Armor(_)) => true,
        (SlotFilter::AnyAccessory, ItemSlot::Accessory(_)) => true,
        (SlotFilter::Exact(a), b) => a == b,
        _ => false,
    }
}

/// The base catalogue as a sequence.
pub open spec fn spec_catalogue() -> Seq<BaseItem> {
    Seq::new(BASE_ITEM_COUNT as nat, |i: int| spec_base_item(i))
}

/// Whether a base can drop through a selector at an item level.
pub open spec fn spec_selects(selector: BaseItemSelector, ilvl: u32, b: BaseItem) -> bool {
    b.min_ilvl <= ilvl && match selector {
        BaseItemSelector::Exact(id) => b.id@ == id@,
        BaseItemSelector::SlotKind(filter) => spec_slot_filter_matches(filter, b.slot),
        BaseItemSelector::Tagged(tags) => b.allowed_tags & tags != 0,
    }
}

/// The pool a selector resolves to: for `Exact` the first base with
/// that id within item level (at most one), otherwise every matching
/// base within item level, in catalogue order.
pub open spec fn spec_resolve(selector: BaseItemSelector, ilvl: u32) -> Seq<BaseItem> {
    let all = spec_catalogue().filter(|b: BaseItem| spec_selects(selector, ilvl, b));
    match selector {
        BaseItemSelector::Exact(_) => all.take(if all.len() > 0 { 1int } else { 0int }),
        _ => all,
    }
}

/// What a slot-kind selector resolves to: exactly the catalogue bases
/// within item level whose slot is of that kind (a weapon for
/// `AnyWeapon`, armor for `AnyArmor`, an accessory for `AnyAccessory`,
/// the given slot for `Exact`). Every base any selector resolves to is a
/// catalogue base within item level.
pub proof fn lemma_resolve_slot_kind(selector: BaseItemSelector, ilvl: u32, b: BaseItem)
    ensures
        spec_resolve(selector, ilvl).contains(b) ==> spec_catalogue().contains(b) && b.min_ilvl <= ilvl,
        selector matches BaseItemSelector::SlotKind(f) ==> (spec_resolve(selector, ilvl).contains(b) <==> (
        spec_catalogue().contains(b) && b.min_ilvl <= ilvl && match f {
            SlotFilter::AnyWeapon => b.slot is Weapon,
            SlotFilter::AnyArmor => b.slot is Armor,
            SlotFilter::AnyAccessory => b.slot is Accessory,
            SlotFilter::Exact(x) => b.slot == x,
        })),
{
    let pred = |c: BaseItem| spec_selects(selector, ilvl, c);
    let all = spec_catalogue().filter(pred);
    if spec_resolve(selector, ilvl).contains(b) {
        assert(all.contains(b)) by {
            let i = choose|i: int| 0 <= i < spec_resolve(selector, ilvl).len() && spec_resolve(selector, ilvl)[i] == b;
            assert(all[i] == b);
        }
        let i = choose|i: int| 0 <= i < all.len() && all[i] == b;
        spec_catalogue().lemma_filter_pred(pred, i);
        spec_catalogue().lemma_filter_contains_rev(pred, b);
    }
    if selector is SlotKind && spec_catalogue().contains(b) && pred(b) {
        let i = choose|i: int| 0 <= i < spec_catalogue().len() && spec_catalogue()[i] == b;
        spec_catalogue().lemma_filter_contains(pred, i);
    }
}

fn selects(selector: BaseItemSelector, ilvl: u32, b: &BaseItem) -> (r: bool)
    ensures
        r == spec_selects(selector, ilvl, *b),
{
    if b.min_ilvl > ilvl {
        return false;
    }
    match selector {
        BaseItemSelector::Exact(id) => crate::text::str_eq(b.id, id),
        BaseItemSelector::SlotKind(filter) => slot_filter_matches(filter, b.slot),
        BaseItemSelector::Tagged(tags) => b.allowed_tags & tags != 0,
    }
}

/// Resolve a selector to the concrete pool of allowed bases.
pub fn resolve(selector: BaseItemSelector, ilvl: u32) -> (r: Vec<BaseItem>)
    ensures
        r@ == spec_resolve(selector, ilvl),
        forall|i: int|
            0 <= i < r@.len() ==> (#[trigger] r@[i]).min_ilvl <= ilvl && match selector {
                BaseItemSelector::SlotKind(SlotFilter::AnyWeapon) => r@[i].slot is Weapon,
                BaseItemSelector::SlotKind(SlotFilter::AnyArmor) => r@[i].slot is Armor,
                BaseItemSelector::SlotKind(SlotFilter::AnyAccessory) => r@[i].slot is Accessory,
                BaseItemSelector::SlotKind(SlotFilter::Exact(x)) => r@[i].slot == x,
                BaseItemSelector::Exact(id) => r@[i].id@ == id@,
                BaseItemSelector::Tagged(tags) => r@[i].allowed_tags & tags != 0,
            },
{
    let ghost pred = |b: BaseItem| spec_selects(selector, ilvl, b);
    let mut out: Vec<BaseItem> = Vec::new();
    let mut k: usize = 0;
    while k < BASE_ITEM_COUNT
        invariant
            k <= BASE_ITEM_COUNT,
            pred == (|b: BaseItem| spec_selects(selector, ilvl, b)),
            out@ == spec_catalogue().take(k as int).filter(pred),
            selector is Exact ==> out@.len() == 0,
        decreases BASE_ITEM_COUNT - k,
    {
        proof {
            reveal(Seq::filter);
            assert(spec_catalogue().take(k + 1).drop_last() =~= spec_catalogue().take(k as int));
        }
        let b = base_item(k);
        if selects(selector, ilvl, &b) {
            out.push(b);
            if let BaseItemSelector::Exact(_) = selector {
                proof {
                    let all = spec_catalogue().filter(pred);
                    lemma_filter_prefix_first(spec_catalogue(), pred, k as int);
                    assert(out@ =~= all.take(1));
                }
                return out;
            }
        }
        k = k + 1;
    }
    proof {
        assert(spec_catalogue().take(BASE_ITEM_COUNT as int) =~= spec_catalogue());
        let all = spec_catalogue().filter(pred);
        if let BaseItemSelector::Exact(_) = selector {
            assert(all.len() == 0);
            assert(all.take(0) =~= all);
        }
    }
    out
}

/// When nothing before index `k` passes and `s[k]` does, the filtered
/// sequence starts with `s[k]`.
proof fn lemma_filter_prefix_first<A>(s: Seq<A>, p: spec_fn(A) -> bool, k: int)
    requires
        0 <= k < s.len(),
        s.take(k).filter(p).len() == 0,
        p(s[k]),
    ensures
        s.filter(p).len() > 0,
        s.filter(p)[0] == s[k],
        s.take(k + 1).filter(p) =~= s.filter(p).take(1),
{
    reveal(Seq::filter);
    assert(s.take(k + 1).drop_last() =~= s.take(k));
    assert(s.take(k + 1).last() == s[k]);
    assert(s.take(k + 1).filter(p) =~= seq![s[k]]);
    lemma_filter_take_prefix(s, p, k + 1);
    let f = s.filter(p);
    assert(f.take(1) =~= seq![s[k]]);
    assert(f.take(1)[0] == f[0]);
}

/// Filtering a prefix gives a prefix of the filtered sequence.
proof fn lemma_filter_take_prefix<A>(s: Seq<A>, p: spec_fn(A) -> bool, n: int)
    requires
        0 <= n <= s.len(),
    ensures
        s.take(n).filter(p).len() <= s.filter(p).len(),
        s.filter(p).take(s.take(n).filter(p).len() as int) =~= s.take(n).filter(p),
    decreases s.len() - n,
{
    reveal(Seq::filter);
    if n < s.len() {
        lemma_filter_take_prefix(s, p, n + 1);
        assert(s.take(n + 1).drop_last() =~= s.take(n));
        let a = s.take(n).filter(p);
        let b = s.take(n + 1).filter(p);
        assert(b.take(a.len() as int) =~= a);
        assert(s.filter(p).take(a.len() as int) =~= s.filter(p).take(b.len() as int).take(a.len() as int));
    } else {
        assert(s.take(n) =~= s);
        assert(s.filter(p).take(s.filter(p).len() as int) =~= s.filter(p));
    }
}

/// One candidate drop of a table.
#[derive(Clone, Copy, Debug)]
pub struct LootEntry {
    pub selector: BaseItemSelector,
    /// Relative weight inside the table.
    pub weight: u32,
    /// Forces the drop to this rarity, ignoring the table's weights.
    pub rarity_override: Option<Rarity>,
    /// Added to the rolled item level; the result floors at 1.
    pub ilvl_offset: i32,
}

impl LootEntry {
    /// A plain entry: no rarity override, no item-level offset.
    pub fn new(selector: BaseItemSelector, weight: u32) -> (r: Self)
        ensures
            r.selector == selector,
            r.weight == weight,
            r.rarity_override is None,
            r.ilvl_offset == 0,
    {
        LootEntry { selector, weight, rarity_override: None, ilvl_offset: 0 }
    }
}

/// Full drop spec for one enemy archetype.
#[derive(Clone, Debug)]
pub struct LootTable {
    /// Probability of any drop, as a bound on the 24-bit unit draw: a
    /// draw below it drops (`2^24` always drops).
    pub drop_units: u32,
    /// Weighted distribution over Common, Magic, Rare, Legendary.
    pub rarity_weights: [u32; 4],
    pub entries: &'static [LootEntry],
    /// Guaranteed picks beyond the chance-gated one.
    pub extra_rolls: u32,
}

/// The item level an entry rolls at: `ilvl` (as a signed 32-bit value)
/// plus the offset, floored at 1.
pub open spec fn spec_entry_ilvl(ilvl: u32, offset: i32) -> u32 {
    let v = (ilvl as i32) as int + offset as int;
    if v < 1 {
        1
    } else {
        v as u32
    }
}

/// The entry-level arithmetic stays inside 32 signed bits.
pub open spec fn spec_offsets_fit(entries: Seq<LootEntry>, ilvl: u32) -> bool {
    forall|k: int|
        0 <= k < entries.len() ==> (ilvl as i32) as int + (#[trigger] entries[k]).ilvl_offset as int <= i32::MAX as int
}

/// The rarity a weighted pick gives: the tier whose weight band holds
/// `pick`.
pub open spec fn spec_rarity_of_pick(weights: Seq<u32>, pick: nat) -> Rarity {
    match spec_weighted_pick(weights, pick) {
        Some(i) => if i == 0 {
            Rarity::Common
        } else if i == 1 {
            Rarity::Magic
        } else if i == 2 {
            Rarity::Rare
        } else {
            Rarity::Legendary
        },
        None => Rarity::Common,
    }
}

/// Pick a rarity tier by weight (Common when all weights are zero, with
/// no draw).
pub fn pick_rarity(weights: &[u32; 4], rng: &mut LootRng) -> (r: Rarity)
    requires
        spec_weight_sum(weights@) <= u32::MAX,
    ensures
        spec_weight_sum(weights@) == 0 ==> r == Rarity::Common && final(rng).state() == old(rng).state(),
        spec_weight_sum(weights@) > 0 ==> r == spec_rarity_of_pick(
            weights@,
            (spec_xorshift(old(rng).state()) % (spec_weight_sum(weights@) as u64)) as nat,
        ) && final(rng).state() == spec_xorshift(old(rng).state()),
{
    let w: &[u32] = weights.as_slice();
    match rng.weighted_index(w) {
        Some(0) => Rarity::Common,
        Some(1) => Rarity::Magic,
        Some(2) => Rarity::Rare,
        Some(_) => Rarity::Legendary,
        None => Rarity::Common,
    }
}

/// Some main-pool row can roll on this base at this rarity and level.
pub open spec fn spec_any_affix_available(base: BaseItem, rarity: Rarity, ilvl: u32) -> bool {
    exists|k: int|
        0 <= k < spec_affix_pool().len() && (#[trigger] spec_affix_pool()[k]).tags & base.allowed_tags != 0
            && spec_affix_pool()[k].min_ilvl <= ilvl && rarity.spec_at_least(spec_affix_pool()[k].rarity_min)
}

pub fn any_affix_available(base: &BaseItem, rarity: Rarity, ilvl: u32) -> (r: bool)
    ensures
        r == spec_any_affix_available(*base, rarity, ilvl),
{
    let pool = affix_pool();
    let mut k: usize = 0;
    while k < pool.len()
        invariant
            pool@ == spec_affix_pool(),
            k <= pool@.len(),
            forall|j: int|
                0 <= j < k ==> !((#[trigger] spec_affix_pool()[j]).tags & base.allowed_tags != 0
                    && spec_affix_pool()[j].min_ilvl <= ilvl && rarity.spec_at_least(spec_affix_pool()[j].rarity_min)),
        decreases pool@.len() - k,
    {
        let a = pool[k];
        if a.tags & base.allowed_tags != 0 && a.min_ilvl <= ilvl && rarity.at_least(a.rarity_min) {
            return true;
        }
        k = k + 1;
    }
    false
}

/// What a roll plan holds: base, rarity, item level, lines, Anchored
/// flag, unique id and pick.
pub type PlanView = (BaseItem, Rarity, u32, Seq<PlannedLine>, bool, Option<&'static str>, Option<u8>);

pub open spec fn spec_plan_view(p: RollPlan) -> PlanView {
    (p.base, p.rarity, p.ilvl, p.lines@, p.anchored, p.unique_id, p.unique_pick)
}

/// One pick of table `t` at kill level `ilvl` from generator state `g`:
/// a weighted entry, a uniform base among those it selects (none, and
/// no plan, when it selects nothing), the entry's rarity override or a
/// weighted rarity (Common when no affix could roll at it), then the
/// roll itself. The plan and the state after.
pub open spec fn spec_roll_one(t: LootTable, ilvl: u32, g: u64) -> (Option<PlanView>, u64) {
    let w = spec_entry_weights(t.entries@);
    if spec_weight_sum(w) == 0 {
        (None, g)
    } else {
        let g1 = spec_xorshift(g);
        let k = spec_weighted_pick(w, (g1 % (spec_weight_sum(w) as u64)) as nat)->0;
        let e = t.entries@[k as int];
        let e_ilvl = spec_entry_ilvl(ilvl, e.ilvl_offset);
        let bases = spec_resolve(e.selector, e_ilvl);
        if bases.len() == 0 {
            (None, g1)
        } else {
            let g2 = spec_xorshift(g1);
            let base = bases[(g2 % (bases.len() as u64)) as int];
            let rw = t.rarity_weights@;
            let g3 = if e.rarity_override is None && spec_weight_sum(rw) > 0 {
                spec_xorshift(g2)
            } else {
                g2
            };
            let rolled = spec_table_rarity(rw, e.rarity_override, g2);
            let rarity = if spec_any_affix_available(base, rolled, e_ilvl) {
                rolled
            } else {
                Rarity::Common
            };
            let o = spec_roll(base, rarity, e_ilvl, g3);
            (Some((base, rarity, e_ilvl, o.0, o.1, o.2, o.3)), o.4)
        }
    }
}

/// `n` picks in a row from state `g`, keeping the ones that produced a
/// plan, in order.
pub open spec fn spec_roll_picks(t: LootTable, ilvl: u32, g: u64, n: nat) -> (Seq<PlanView>, u64)
    decreases n,
{
    if n == 0 {
        (Seq::empty(), g)
    } else {
        let first = spec_roll_one(t, ilvl, g);
        let rest = spec_roll_picks(t, ilvl, first.1, (n - 1) as nat);
        match first.0 {
            Some(v) => (seq![v] + rest.0, rest.1),
            None => rest,
        }
    }
}

/// A whole roll of table `t` from state `g`: a unit draw below
/// `drop_units` earns one pick, then `extra_rolls` guaranteed picks.
pub open spec fn spec_table_roll(t: LootTable, ilvl: u32, g: u64) -> (Seq<PlanView>, u64) {
    let g1 = spec_xorshift(g);
    if ((g1 >> 40u64) as u32) < t.drop_units {
        spec_roll_picks(t, ilvl, g1, (t.extra_rolls + 1) as nat)
    } else {
        spec_roll_picks(t, ilvl, g1, t.extra_rolls as nat)
    }
}

/// The laws every freshly rolled plan obeys (see `Item::roll`).
pub open spec fn spec_plan_ok(plan: RollPlan) -> bool {
    &&& spec_lines_ok(plan.base, plan.lines@)
    &&& spec_attr_count(plan.lines@) == (if spec_axis_candidates(plan.base, plan.ilvl, AffixCategory::Attribute).len()
        > 0 {
        1nat
    } else {
        0nat
    })
    &&& (plan.rarity == Rarity::Common ==> spec_elem_count(plan.lines@) == 0 && spec_arch_count(plan.lines@) == 0)
    &&& (plan.rarity == Rarity::Magic ==> spec_elem_count(plan.lines@) + spec_arch_count(plan.lines@) == (
    if spec_has_axis(plan.base, plan.ilvl, AffixCategory::Element) + spec_has_axis(
        plan.base,
        plan.ilvl,
        AffixCategory::Archetype,
    ) > 0 {
        1nat
    } else {
        0nat
    }))
    &&& (plan.rarity == Rarity::Rare || plan.rarity == Rarity::Legendary ==> spec_elem_count(plan.lines@)
        == spec_has_axis(plan.base, plan.ilvl, AffixCategory::Element) && spec_arch_count(plan.lines@)
        == spec_has_axis(plan.base, plan.ilvl, AffixCategory::Archetype))
    &&& spec_res_count(plan.lines@) <= 1
    &&& (plan.rarity == Rarity::Common || plan.rarity == Rarity::Magic ==> spec_res_count(plan.lines@) == 0)
    &&& spec_legendary_ok(plan.base, plan.rarity, plan.unique_id, plan.unique_pick)
    &&& (plan.anchored ==> plan.rarity == Rarity::Legendary)
}

/// The weights of a table's entries.
/// The rarity an entry rolls at: its override, else a weighted pick
/// over the table's rarity weights from generator state `s` (Common
/// when they are all zero).
pub open spec fn spec_table_rarity(weights: Seq<u32>, rarity_override: Option<Rarity>, s: u64) -> Rarity {
    match rarity_override {
        Some(o) => o,
        None => if spec_weight_sum(weights) == 0 {
            Rarity::Common
        } else {
            spec_rarity_of_pick(weights, (spec_xorshift(s) % (spec_weight_sum(weights) as u64)) as nat)
        },
    }
}

pub open spec fn spec_entry_weights(entries: Seq<LootEntry>) -> Seq<u32> {
    entries.map_values(|e: LootEntry| e.weight)
}

/// A table can be rolled without overflow: its entry weights and rarity
/// weights each sum within 32 bits.
pub open spec fn spec_table_ok(t: LootTable) -> bool {
    spec_weight_sum(spec_entry_weights(t.entries@)) <= u32::MAX && spec_weight_sum(t.rarity_weights@) <= u32::MAX
}

impl LootTable {
    /// One pick: a weighted entry, a uniform base from its selector's
    /// pool at the entry's item level, the entry's rarity override or a
    /// weighted tier (Common when no affix could roll at that tier), then
    /// the roll. `None` when the table has no entries, all entry weights
    /// are zero, or the pool is empty.
    pub fn roll_one(&self, rng: &mut LootRng, ilvl: u32) -> (r: Option<RollPlan>)
        requires
            spec_table_ok(*self),
            spec_offsets_fit(self.entries@, ilvl),
        ensures
            (match r {
                Some(p) => Some(spec_plan_view(p)),
                None => None,
            }, final(rng).state()) == spec_roll_one(*self, ilvl, old(rng).state()),
            spec_weight_sum(spec_entry_weights(self.entries@)) == 0 ==> r is None && final(rng).state()
                == old(rng).state(),
            spec_weight_sum(spec_entry_weights(self.entries@)) > 0 ==> ({
                let s1 = spec_xorshift(old(rng).state());
                let k = spec_weighted_pick(
                    spec_entry_weights(self.entries@),
                    (s1 % (spec_weight_sum(spec_entry_weights(self.entries@)) as u64)) as nat,
                )->0 as int;
                let e = self.entries@[k];
                let e_ilvl = spec_entry_ilvl(ilvl, e.ilvl_offset);
                let bases = spec_resolve(e.selector, e_ilvl);
                let s2 = spec_xorshift(s1);
                let base = bases[(s2 % (bases.len() as u64)) as int];
                let rolled = spec_table_rarity(self.rarity_weights@, e.rarity_override, s2);
                &&& 0 <= k < self.entries@.len()
                &&& (r is Some <==> bases.len() > 0)
                &&& r matches Some(plan) ==> {
                    &&& spec_plan_ok(plan)
                    &&& plan.ilvl == e_ilvl
                    &&& plan.base == base
                    &&& plan.rarity == (if spec_any_affix_available(base, rolled, e_ilvl) {
                        rolled
                    } else {
                        Rarity::Common
                    })
                }
            }),
    {
        if self.entries.len() == 0 {
            proof {
                assert(spec_entry_weights(self.entries@).len() == 0);
            }
            return None;
        }
        let mut weights: Vec<u32> = Vec::new();
        let mut i: usize = 0;
        while i < self.entries.len()
            invariant
                i <= self.entries@.len(),
                weights@ == spec_entry_weights(self.entries@.take(i as int)),
            decreases self.entries@.len() - i,
        {
            weights.push(self.entries[i].weight);
            proof {
                assert(spec_entry_weights(self.entries@.take(i + 1)) =~= spec_entry_weights(
                    self.entries@.take(i as int),
                ).push(self.entries@[i as int].weight));
            }
            i = i + 1;
        }
        proof {
            assert(self.entries@.take(self.entries@.len() as int) =~= self.entries@);
        }
        let k = match rng.weighted_index(&weights) {
            Some(k) => k,
            None => return None,
        };
        let entry = self.entries[k];
        let v: i64 = (ilvl as i32) as i64 + entry.ilvl_offset as i64;
        let entry_ilvl: u32 = if v < 1 { 1 } else { v as u32 };
        proof {
            assert(self.entries@[k as int] == entry);
        }
        let bases = resolve(entry.selector, entry_ilvl);
        if bases.len() == 0 {
            return None;
        }
        let x = rng.next_u64();
        let base = bases[(x % (bases.len() as u64)) as usize];
        let rarity = match entry.rarity_override {
            Some(o) => o,
            None => pick_rarity(&self.rarity_weights, rng),
        };
        let rarity = if any_affix_available(&base, rarity, entry_ilvl) { rarity } else { Rarity::Common };
        let plan = Item::roll(&base, rarity, entry_ilvl, rng);
        proof {
            assert(spec_resolve(entry.selector, entry_ilvl).contains(base));
        }
        Some(plan)
    }

    /// Roll the table once: the first pick only when the unit draw falls
    /// below `drop_units`, then `extra_rolls` guaranteed picks. Returns
    /// zero or more plans.
    pub fn roll(&self, rng: &mut LootRng, ilvl: u32) -> (r: Vec<RollPlan>)
        requires
            spec_table_ok(*self),
            spec_offsets_fit(self.entries@, ilvl),
        ensures
            r@.map_values(|p: RollPlan| spec_plan_view(p)) == spec_table_roll(*self, ilvl, old(rng).state()).0,
            final(rng).state() == spec_table_roll(*self, ilvl, old(rng).state()).1,
            r@.len() <= self.extra_rolls as int + 1,
            ((spec_xorshift(old(rng).state()) >> 40u64) as u32) >= self.drop_units ==> r@.len() <= self.extra_rolls,
            forall|i: int| 0 <= i < r@.len() ==> spec_plan_ok(#[trigger] r@[i]),
    {
        let ghost target = spec_table_roll(*self, ilvl, old(rng).state());
        let mut out: Vec<RollPlan> = Vec::new();
        let u = rng.next_unit_bits();
        let ghost g1 = rng.state();
        if u < self.drop_units {
            let ghost before = rng.state();
            let first = self.roll_one(rng, ilvl);
            proof {
                assert(spec_roll_picks(*self, ilvl, before, (self.extra_rolls + 1) as nat) == ({
                    let f = spec_roll_one(*self, ilvl, before);
                    let rest = spec_roll_picks(*self, ilvl, f.1, self.extra_rolls as nat);
                    match f.0 {
                        Some(v) => (seq![v] + rest.0, rest.1),
                        None => rest,
                    }
                }));
            }
            if let Some(item) = first {
                out.push(item);
            }
        }
        proof {
            assert(out@.map_values(|p: RollPlan| spec_plan_view(p)) + spec_roll_picks(
                *self,
                ilvl,
                rng.state(),
                self.extra_rolls as nat,
            ).0 =~= target.0);
        }
        let mut n: u32 = 0;
        while n < self.extra_rolls
            invariant
                spec_table_ok(*self),
                spec_offsets_fit(self.entries@, ilvl),
                n <= self.extra_rolls,
                out@.len() <= n as int + (if u < self.drop_units { 1int } else { 0int }),
                forall|i: int| 0 <= i < out@.len() ==> spec_plan_ok(#[trigger] out@[i]),
                out@.map_values(|p: RollPlan| spec_plan_view(p)) + spec_roll_picks(
                    *self,
                    ilvl,
                    rng.state(),
                    (self.extra_rolls - n) as nat,
                ).0 == target.0,
                spec_roll_picks(*self, ilvl, rng.state(), (self.extra_rolls - n) as nat).1 == target.1,
            decreases self.extra_rolls - n,
        {
            let ghost before = rng.state();
            let ghost out_before = out@;
            let next = self.roll_one(rng, ilvl);
            if let Some(item) = next {
                out.push(item);
            }
            proof {
                let rest = spec_roll_picks(*self, ilvl, rng.state(), (self.extra_rolls - n - 1) as nat);
                assert(spec_roll_picks(*self, ilvl, before, (self.extra_rolls - n) as nat) == ({
                    let f = spec_roll_one(*self, ilvl, before);
                    match f.0 {
                        Some(v) => (seq![v] + rest.0, rest.1),
                        None => rest,
                    }
                }));
                assert(out@.map_values(|p: RollPlan| spec_plan_view(p)) + rest.0 =~= out_before.map_values(
                    |p: RollPlan| spec_plan_view(p),
                ) + spec_roll_picks(*self, ilvl, before, (self.extra_rolls - n) as nat).0);
            }
            n = n + 1;
        }
        proof {
            assert(out@.map_values(|p: RollPlan| spec_plan_view(p)) =~= target.0);
        }
        out
    }
}

/// The brute drop table.
pub open spec fn spec_brute_table() -> LootTable {
    LootTable {
        drop_units: 3019899,
        rarity_weights: [70, 25, 5, 0],
        extra_rolls: 0,
        entries: vstd::array::spec_array_as_slice(&[
            LootEntry {
                selector: BaseItemSelector::Tagged(DEFENSE | MELEE),
                weight: 6,
                rarity_override: None,
                ilvl_offset: 0,
            },
            LootEntry {
                selector: BaseItemSelector::SlotKind(SlotFilter::AnyAccessory),
                weight: 1,
                rarity_override: None,
                ilvl_offset: 0,
            },
        ]),
    }
}

/// Brutes drop heavy armour and melee weapons, sometimes an accessory.
pub fn brute_table() -> (t: LootTable)
    ensures
        t == spec_brute_table(),
        spec_table_ok(t),
        t.entries@.len() == 2,
        forall|k: int| 0 <= k < t.entries@.len() ==> (#[trigger] t.entries@[k]).ilvl_offset == 0,
{
    let t = LootTable {
        drop_units: 3019899,
        rarity_weights: [70, 25, 5, 0],
        extra_rolls: 0,
        entries: &[
            LootEntry {
                selector: BaseItemSelector::Tagged(DEFENSE | MELEE),
                weight: 6,
                rarity_override: None,
                ilvl_offset: 0,
            },
            LootEntry {
                selector: BaseItemSelector::SlotKind(SlotFilter::AnyAccessory),
                weight: 1,
                rarity_override: None,
                ilvl_offset: 0,
            },
        ],
    };
    proof {
        lemma_small_table(t);
    }
    t
}

/// The stalker drop table.
pub open spec fn spec_stalker_table() -> LootTable {
    LootTable {
        drop_units: 3355444,
        rarity_weights: [60, 30, 10, 0],
        extra_rolls: 0,
        entries: vstd::array::spec_array_as_slice(&[
            LootEntry {
                selector: BaseItemSelector::Tagged(SPEED | CRIT),
                weight: 5,
                rarity_override: None,
                ilvl_offset: 0,
            },
            LootEntry {
                selector: BaseItemSelector::SlotKind(SlotFilter::AnyAccessory),
                weight: 1,
                rarity_override: None,
                ilvl_offset: 0,
            },
        ]),
    }
}

/// Stalkers drop speed and crit gear.
pub fn stalker_table() -> (t: LootTable)
    ensures
        t == spec_stalker_table(),
        spec_table_ok(t),
        t.entries@.len() == 2,
        forall|k: int| 0 <= k < t.entries@.len() ==> (#[trigger] t.entries@[k]).ilvl_offset == 0,
{
    let t = LootTable {
        drop_units: 3355444,
        rarity_weights: [60, 30, 10, 0],
        extra_rolls: 0,
        entries: &[
            LootEntry {
                selector: BaseItemSelector::Tagged(SPEED | CRIT),
                weight: 5,
                rarity_override: None,
                ilvl_offset: 0,
            },
            LootEntry {
                selector: BaseItemSelector::SlotKind(SlotFilter::AnyAccessory),
                weight: 1,
                rarity_override: None,
                ilvl_offset: 0,
            },
        ],
    };
    proof {
        lemma_small_table(t);
    }
    t
}

/// The caster drop table.
pub open spec fn spec_caster_table() -> LootTable {
    LootTable {
        drop_units: 3690988,
        rarity_weights: [55, 30, 13, 2],
        extra_rolls: 0,
        entries: vstd::array::spec_array_as_slice(&[
            LootEntry {
                selector: BaseItemSelector::Tagged(CASTER | ANY_ELEMENT),
                weight: 5,
                rarity_override: None,
                ilvl_offset: 0,
            },
            LootEntry {
                selector: BaseItemSelector::Tagged(UTILITY),
                weight: 2,
                rarity_override: None,
                ilvl_offset: 0,
            },
            LootEntry {
                selector: BaseItemSelector::SlotKind(SlotFilter::AnyAccessory),
                weight: 1,
                rarity_override: None,
                ilvl_offset: 0,
            },
        ]),
    }
}

/// Casters drop caster and elemental gear, with a first whisper of
/// Legendary.
pub fn caster_table() -> (t: LootTable)
    ensures
        t == spec_caster_table(),
        spec_table_ok(t),
        t.entries@.len() == 3,
        forall|k: int| 0 <= k < t.entries@.len() ==> (#[trigger] t.entries@[k]).ilvl_offset == 0,
{
    let t = LootTable {
        drop_units: 3690988,
        rarity_weights: [55, 30, 13, 2],
        extra_rolls: 0,
        entries: &[
            LootEntry {
                selector: BaseItemSelector::Tagged(CASTER | ANY_ELEMENT),
                weight: 5,
                rarity_override: None,
                ilvl_offset: 0,
            },
            LootEntry {
                selector: BaseItemSelector::Tagged(UTILITY),
                weight: 2,
                rarity_override: None,
                ilvl_offset: 0,
            },
            LootEntry {
                selector: BaseItemSelector::SlotKind(SlotFilter::AnyAccessory),
                weight: 1,
                rarity_override: None,
                ilvl_offset: 0,
            },
        ],
    };
    proof {
        lemma_small_table(t);
    }
    t
}

/// The elite drop table.
pub open spec fn spec_elite_table() -> LootTable {
    LootTable {
        drop_units: 14260634,
        rarity_weights: [20, 45, 30, 5],
        extra_rolls: 0,
        entries: vstd::array::spec_array_as_slice(&[
            LootEntry {
                selector: BaseItemSelector::SlotKind(SlotFilter::AnyWeapon),
                weight: 3,
                rarity_override: None,
                ilvl_offset: 0,
            },
            LootEntry {
                selector: BaseItemSelector::SlotKind(SlotFilter::AnyArmor),
                weight: 3,
                rarity_override: None,
                ilvl_offset: 0,
            },
            LootEntry {
                selector: BaseItemSelector::SlotKind(SlotFilter::AnyAccessory),
                weight: 2,
                rarity_override: None,
                ilvl_offset: 0,
            },
        ]),
    }
}

/// Elites drop anything.
pub fn elite_table() -> (t: LootTable)
    ensures
        t == spec_elite_table(),
        spec_table_ok(t),
        t.entries@.len() == 3,
        forall|k: int| 0 <= k < t.entries@.len() ==> (#[trigger] t.entries@[k]).ilvl_offset == 0,
{
    let t = LootTable {
        drop_units: 14260634,
        rarity_weights: [20, 45, 30, 5],
        extra_rolls: 0,
        entries: &[
            LootEntry {
                selector: BaseItemSelector::SlotKind(SlotFilter::AnyWeapon),
                weight: 3,
                rarity_override: None,
                ilvl_offset: 0,
            },
            LootEntry {
                selector: BaseItemSelector::SlotKind(SlotFilter::AnyArmor),
                weight: 3,
                rarity_override: None,
                ilvl_offset: 0,
            },
            LootEntry {
                selector: BaseItemSelector::SlotKind(SlotFilter::AnyAccessory),
                weight: 2,
                rarity_override: None,
                ilvl_offset: 0,
            },
        ],
    };
    proof {
        lemma_small_table(t);
    }
    t
}

/// The boss drop table.
pub open spec fn spec_boss_table() -> LootTable {
    LootTable {
        drop_units: 16777216,
        rarity_weights: [0, 30, 50, 20],
        extra_rolls: 2,
        entries: vstd::array::spec_array_as_slice(&[
            LootEntry {
                selector: BaseItemSelector::SlotKind(SlotFilter::AnyWeapon),
                weight: 4,
                rarity_override: None,
                ilvl_offset: 1,
            },
            LootEntry {
                selector: BaseItemSelector::SlotKind(SlotFilter::AnyArmor),
                weight: 4,
                rarity_override: None,
                ilvl_offset: 1,
            },
            LootEntry {
                selector: BaseItemSelector::SlotKind(SlotFilter::AnyAccessory),
                weight: 2,
                rarity_override: Some(Rarity::Legendary),
                ilvl_offset: 2,
            },
        ]),
    }
}

/// Bosses always drop, with two guaranteed extra picks, a higher item
/// level, and a shot at a guaranteed Legendary accessory.
pub fn boss_table() -> (t: LootTable)
    ensures
        t == spec_boss_table(),
        spec_table_ok(t),
        t.entries@.len() == 3,
        forall|k: int| 0 <= k < t.entries@.len() ==> 0 <= (#[trigger] t.entries@[k]).ilvl_offset <= 2,
{
    let t = LootTable {
        drop_units: 16777216,
        rarity_weights: [0, 30, 50, 20],
        extra_rolls: 2,
        entries: &[
            LootEntry {
                selector: BaseItemSelector::SlotKind(SlotFilter::AnyWeapon),
                weight: 4,
                rarity_override: None,
                ilvl_offset: 1,
            },
            LootEntry {
                selector: BaseItemSelector::SlotKind(SlotFilter::AnyArmor),
                weight: 4,
                rarity_override: None,
                ilvl_offset: 1,
            },
            LootEntry {
                selector: BaseItemSelector::SlotKind(SlotFilter::AnyAccessory),
                weight: 2,
                rarity_override: Some(Rarity::Legendary),
                ilvl_offset: 2,
            },
        ],
    };
    proof {
        lemma_small_table(t);
    }
    t
}

/// A table of at most three entries with small weights cannot overflow.
proof fn lemma_small_table(t: LootTable)
    requires
        t.entries@.len() <= 3,
        forall|k: int| 0 <= k < t.entries@.len() ==> (#[trigger] t.entries@[k]).weight <= 100,
        forall|k: int| 0 <= k < 4 ==> t.rarity_weights@[k] <= 100,
        t.rarity_weights@.len() == 4,
    ensures
        spec_table_ok(t),
{
    let w = spec_entry_weights(t.entries@);
    reveal_with_fuel(spec_weight_sum, 5);
    assert(w.len() <= 3);
    if w.len() > 0 {
        assert(w.drop_first().len() == w.len() - 1);
        if w.len() > 1 {
            assert(w.drop_first().drop_first().len() == w.len() - 2);
        }
    }
    let r = t.rarity_weights@;
    assert(r.drop_first().drop_first().drop_first().drop_first().len() == 0);
}

/// The table of each role: Wraiths share the stalker table and
/// Mindbinders the caster table.
pub open spec fn spec_table_for(role: MonsterRole) -> LootTable {
    match role {
        MonsterRole::Brute => spec_brute_table(),
        MonsterRole::Stalker | MonsterRole::Wraith => spec_stalker_table(),
        MonsterRole::Caster | MonsterRole::Mindbinder => spec_caster_table(),
        MonsterRole::Elite => spec_elite_table(),
        MonsterRole::Boss => spec_boss_table(),
    }
}

/// The loot table an enemy of `role` drops from. Wraiths share the
/// stalker table and Mindbinders the caster table.
pub fn table_for(role: MonsterRole) -> (t: LootTable)
    ensures
        t == spec_table_for(role),
        spec_table_ok(t),
        forall|k: int| 0 <= k < t.entries@.len() ==> 0 <= (#[trigger] t.entries@[k]).ilvl_offset <= 2,
{
    match role {
        MonsterRole::Brute => brute_table(),
        MonsterRole::Stalker => stalker_table(),
        MonsterRole::Caster => caster_table(),
        MonsterRole::Elite => elite_table(),
        MonsterRole::Boss => boss_table(),
        MonsterRole::Wraith => stalker_table(),
        MonsterRole::Mindbinder => caster_table(),
    }
}

} // verus!

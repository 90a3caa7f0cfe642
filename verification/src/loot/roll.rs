//! The roll pipeline behind a fresh drop.
//!
//! Rolling decides every line of an item and draws every random number
//! it needs: signature lines, the attribute, element and archetype axis lines, the
//! bonus lines, the legendary effect, the resonance line and the
//! Anchored trait. The result is a [`RollPlan`]. A line's `f32`
//! magnitude is made from its [`Magnitude`] draw (see
//! [`Magnitude`] for the formula) and handed back to
//! [`RollPlan::into_item`] as a bit pattern.

use vstd::prelude::*;

use crate::stats::Stat;
use super::affixes::{
    affix_archetype, affix_attribute, affix_element, affix_pool, category, is_legendary_effect, lookup,
    resonance_archetype, resonance_attribute, resonance_element, resonance_pool, rift_touched_pool,
    signature_for, spec_affix_archetype, spec_affix_attribute, spec_affix_element, spec_affix_pool, spec_all_affixes, spec_category,
    spec_find_id, spec_is_legendary_effect, spec_is_resonance, spec_resonance_pool,
    spec_rift_touched_pool, spec_signature_for, AffixCategory, AffixDef, AffixEffect,
    RIFT_TOUCHED_MIN_FLOOR,
};
use super::item::{Item, RolledAffix};
use super::items::{spec_base_item, BaseItem, EquipSlot, BASE_ITEM_COUNT};
use super::rarity::Rarity;
use super::rng::{spec_weight_sum, spec_weighted_pick, spec_xorshift, LootRng};
use super::uniques::{candidates_for, spec_uniques, spec_unique_fits, UniqueDef};

verus! {

/// How a freshly rolled line's magnitude is made.
///
/// `Fixed`: the affix's range is a single value and nothing is drawn;
/// the magnitude is the range's low end. `Drawn(u)`: a 24-bit unit draw
/// `u` was taken; with `t = u / 2^24` the magnitude is
/// `lo + (hi - lo) * t` over the affix's range at the item's level.
#[derive(Clone, Copy, Debug, PartialEq, Eq, Structural)]
pub enum Magnitude {
    Fixed,
    Drawn(u32),
}

/// One decided line of a roll.
#[derive(Clone, Copy, Debug)]
pub struct PlannedLine {
    pub def: AffixDef,
    pub magnitude: Magnitude,
}

/// Everything a roll decided, before magnitudes are turned into `f32`.
#[derive(Clone, Debug)]
pub struct RollPlan {
    pub base: BaseItem,
    pub rarity: Rarity,
    pub ilvl: u32,
    pub lines: Vec<PlannedLine>,
    pub anchored: bool,
    pub unique_id: Option<&'static str>,
    pub unique_pick: Option<u8>,
}

/// Per-roll chance that a Legendary drop is also Anchored (1 in 5 000),
/// as a bound on the 24-bit unit draw: Anchored when the draw is below it.
pub const ANCHORED_UNITS: u32 = 3356;

/// Resonance chance of a Rare drop (5 %), as a bound on the unit draw.
pub const RESONANCE_RARE_UNITS: u32 = 838861;

/// Resonance chance of a Legendary drop (25 %), as a bound on the unit draw.
pub const RESONANCE_LEGENDARY_UNITS: u32 = 4194304;

/// Chance that a qualifying kill carries a rift-touched line (20 %), as
/// a bound on the unit draw.
pub const RIFT_TOUCHED_UNITS: u32 = 3355444;

/// The resonance chance bound of a rarity (0: never).
pub open spec fn spec_resonance_units(r: Rarity) -> u32 {
    match r {
        Rarity::Rare => RESONANCE_RARE_UNITS,
        Rarity::Legendary => RESONANCE_LEGENDARY_UNITS,
        _ => 0,
    }
}

/// The stat a line adds, if it is a stat line.
pub open spec fn spec_stat_of(def: AffixDef) -> Option<Stat> {
    match def.effect {
        AffixEffect::Stat(s) => Some(s),
        _ => None,
    }
}

/// `true` if one of the base's implicit stats is `s`.
pub open spec fn spec_implicit_has(base: BaseItem, s: Stat) -> bool {
    exists|k: int| 0 <= k < base.implicit@.len() && #[trigger] base.implicit@[k].0 == s
}

/// The base's implicit stats include no attribute, element or archetype stat (true
/// of every catalogue base).
pub open spec fn spec_implicit_axis_free(base: BaseItem) -> bool {
    forall|k: int|
        0 <= k < base.implicit@.len() ==> !(#[trigger] base.implicit@[k].0 == Stat::Strength
            || base.implicit@[k].0 == Stat::Agility || base.implicit@[k].0 == Stat::Intellect
            || base.implicit@[k].0 == Stat::PhysicalDamage || base.implicit@[k].0 == Stat::FireDamage
            || base.implicit@[k].0 == Stat::IceDamage || base.implicit@[k].0 == Stat::LightningDamage
            || base.implicit@[k].0 == Stat::ProjectileDamage || base.implicit@[k].0 == Stat::MeleeDamage)
}

/// A line respects the base's family lock on every axis.
pub open spec fn spec_in_family(base: BaseItem, d: AffixDef) -> bool {
    &&& match spec_affix_element(d) {
        Some(e) => base.family.spec_allows_element(e),
        None => true,
    }
    &&& match spec_affix_archetype(d) {
        Some(r) => base.family.spec_allows_archetype(r),
        None => true,
    }
    &&& match spec_affix_attribute(d) {
        Some(a) => base.family.spec_allows_attribute(a),
        None => true,
    }
}

/// A resonance line targets an axis the base's family rejects.
pub open spec fn spec_cross_family(base: BaseItem, d: AffixDef) -> bool {
    ||| (match spec_affix_element(d) {
        Some(e) => !base.family.spec_allows_element(e),
        None => false,
    })
    ||| (match spec_affix_archetype(d) {
        Some(r) => !base.family.spec_allows_archetype(r),
        None => false,
    })
    ||| (match spec_affix_attribute(d) {
        Some(a) => !base.family.spec_allows_attribute(a),
        None => false,
    })
}

/// No stat appears on two lines, nor on a line and an implicit.
pub open spec fn spec_no_repeated_stat(base: BaseItem, lines: Seq<PlannedLine>) -> bool {
    &&& forall|i: int, j: int|
        0 <= i < j < lines.len() && (#[trigger] spec_stat_of(lines[i].def)) is Some ==> spec_stat_of(
            lines[i].def,
        ) != #[trigger] spec_stat_of(lines[j].def)
    &&& forall|i: int|
        0 <= i < lines.len() ==> match #[trigger] spec_stat_of(lines[i].def) {
            Some(s) => !spec_implicit_has(base, s),
            None => true,
        }
}

/// A line counted as the attribute axis (resonance lines are counted apart).
pub open spec fn spec_is_attr_line(l: PlannedLine) -> bool {
    !spec_is_resonance(l.def) && spec_affix_attribute(l.def) is Some
}

/// A line counted as the element axis.
pub open spec fn spec_is_elem_line(l: PlannedLine) -> bool {
    !spec_is_resonance(l.def) && spec_affix_element(l.def) is Some
}

/// A line counted as the archetype axis.
pub open spec fn spec_is_arch_line(l: PlannedLine) -> bool {
    !spec_is_resonance(l.def) && spec_affix_archetype(l.def) is Some
}

/// A resonance line.
pub open spec fn spec_is_res_line(l: PlannedLine) -> bool {
    spec_is_resonance(l.def)
}

/// A line that is neither an axis line nor a resonance line.
pub open spec fn spec_is_plain(d: AffixDef) -> bool {
    !spec_is_resonance(d) && spec_affix_attribute(d) is None && spec_affix_element(d) is None
        && spec_affix_archetype(d) is None
}

/// A pool row that can be the attribute (element, archetype) axis line of a
/// drop: high enough item level, the right category, and allowed by
/// the family.
pub open spec fn spec_axis_ok(base: BaseItem, ilvl: u32, cat: AffixCategory, d: AffixDef) -> bool {
    &&& d.min_ilvl <= ilvl
    &&& spec_category(d) == cat
    &&& match cat {
        AffixCategory::Element => match spec_affix_element(d) {
            Some(e) => base.family.spec_allows_element(e),
            None => false,
        },
        AffixCategory::Archetype => match spec_affix_archetype(d) {
            Some(r) => base.family.spec_allows_archetype(r),
            None => false,
        },
        AffixCategory::Attribute => match spec_affix_attribute(d) {
            Some(a) => base.family.spec_allows_attribute(a),
            None => false,
        },
        _ => false,
    }
}

/// The attribute (element, archetype) candidates of a base at an item level.
pub open spec fn spec_axis_candidates(base: BaseItem, ilvl: u32, cat: AffixCategory) -> Seq<AffixDef> {
    spec_affix_pool().filter(|d: AffixDef| spec_axis_ok(base, ilvl, cat, d))
}

/// The lines of a finished roll obey the drop laws: every line comes
/// from the main or resonance pool, non-resonance lines respect the
/// family lock, resonance lines break it, and (for bases whose
/// implicits carry no axis stat) no stat repeats.
pub open spec fn spec_lines_ok(base: BaseItem, lines: Seq<PlannedLine>) -> bool {
    &&& forall|i: int|
        0 <= i < lines.len() ==> spec_affix_pool().contains(#[trigger] lines[i].def)
            || spec_resonance_pool().contains(lines[i].def)
    &&& forall|i: int|
        0 <= i < lines.len() && !spec_is_resonance(#[trigger] lines[i].def) ==> spec_in_family(
            base,
            lines[i].def,
        )
    &&& forall|i: int|
        0 <= i < lines.len() && spec_is_resonance(#[trigger] lines[i].def) ==> spec_cross_family(
            base,
            lines[i].def,
        )
    &&& spec_implicit_axis_free(base) ==> spec_no_repeated_stat(base, lines)
    &&& forall|i: int|
        0 <= i < lines.len() ==> ((#[trigger] lines[i]).magnitude is Fixed <==> lines[i].def.roll.0
            == lines[i].def.roll.1)
}

/// The stats recorded as used: the implicits and every line's stat.
pub open spec fn spec_used_ok(base: BaseItem, lines: Seq<PlannedLine>, used: Seq<Stat>) -> bool {
    forall|s: Stat|
        #![trigger used.contains(s)]
        used.contains(s) <==> (spec_implicit_has(base, s) || exists|i: int|
            0 <= i < lines.len() && #[trigger] spec_stat_of(lines[i].def) == Some(s))
}

/// `true` if stat `s` is already on the item in progress: one of the
/// base's implicits or one of the lines so far.
pub open spec fn spec_taken(base: BaseItem, lines: Seq<PlannedLine>, s: Stat) -> bool {
    spec_implicit_has(base, s) || exists|i: int| 0 <= i < lines.len() && #[trigger] spec_stat_of(lines[i].def) == Some(s)
}

/// The magnitude of a line drawn from generator state `g`, and the state
/// after: no draw for a single-valued range, else the next unit draw.
pub open spec fn spec_magnitude_draw(def: AffixDef, g: u64) -> (Magnitude, u64) {
    if def.roll.0 == def.roll.1 {
        (Magnitude::Fixed, g)
    } else {
        (Magnitude::Drawn((spec_xorshift(g) >> 40u64) as u32), spec_xorshift(g))
    }
}

/// Append line `d` with its magnitude drawn from `g`; the lines and the
/// state after.
pub open spec fn spec_push_drawn(lines: Seq<PlannedLine>, d: AffixDef, g: u64) -> (Seq<PlannedLine>, u64) {
    (lines.push(PlannedLine { def: d, magnitude: spec_magnitude_draw(d, g).0 }), spec_magnitude_draw(d, g).1)
}

/// Draw a line's magnitude: nothing for a single-valued range, else
/// one unit draw.
pub(crate) fn draw_magnitude(def: &AffixDef, rng: &mut LootRng) -> (m: Magnitude)
    ensures
        def.roll.0 == def.roll.1 ==> m == Magnitude::Fixed && final(rng).state() == old(rng).state(),
        def.roll.0 != def.roll.1 ==> m == Magnitude::Drawn(
            (spec_xorshift(old(rng).state()) >> 40u64) as u32,
        ) && final(rng).state() == spec_xorshift(old(rng).state()),
{
    if def.roll.0 == def.roll.1 {
        Magnitude::Fixed
    } else {
        Magnitude::Drawn(rng.next_unit_bits())
    }
}

/// Whether `s` is in the used list.
fn stat_used(used: &Vec<Stat>, s: Stat) -> (r: bool)
    ensures
        r == used@.contains(s),
{
    let mut i: usize = 0;
    while i < used.len()
        invariant
            i <= used@.len(),
            forall|j: int| 0 <= j < i ==> used@[j] != s,
        decreases used@.len() - i,
    {
        if used[i] == s {
            return true;
        }
        i = i + 1;
    }
    false
}

/// The stats of the base's implicits.
fn implicit_stats(base: &BaseItem) -> (r: Vec<Stat>)
    ensures
        forall|s: Stat| r@.contains(s) <==> spec_implicit_has(*base, s),
{
    let mut out: Vec<Stat> = Vec::new();
    let mut i: usize = 0;
    while i < base.implicit.len()
        invariant
            i <= base.implicit@.len(),
            out@.len() == i,
            forall|j: int| 0 <= j < i ==> out@[j] == base.implicit@[j].0,
        decreases base.implicit@.len() - i,
    {
        out.push(base.implicit[i].0);
        i = i + 1;
    }
    proof {
        assert forall|s: Stat| out@.contains(s) <==> spec_implicit_has(*base, s) by {
            if out@.contains(s) {
                let j = choose|j: int| 0 <= j < out@.len() && out@[j] == s;
                assert(base.implicit@[j].0 == s);
            }
            if spec_implicit_has(*base, s) {
                let k = choose|k: int| 0 <= k < base.implicit@.len() && #[trigger] base.implicit@[k].0 == s;
                assert(out@[k] == s);
            }
        }
    }
    out
}

/// Append a decided line, recording its stat as used.
fn push_line(lines: &mut Vec<PlannedLine>, used: &mut Vec<Stat>, def: AffixDef, magnitude: Magnitude)
    ensures
        final(lines)@ == old(lines)@.push(PlannedLine { def, magnitude }),
        forall|s: Stat|
            #![trigger final(used)@.contains(s)]
            final(used)@.contains(s) <==> (old(used)@.contains(s) || spec_stat_of(def) == Some(s)),
{
    lines.push(PlannedLine { def, magnitude });
    match def.effect {
        AffixEffect::Stat(s) => {
            used.push(s);
            proof {
                assert forall|t: Stat| #![trigger used@.contains(t)]
                    used@.contains(t) <==> (old(used)@.contains(t) || spec_stat_of(def) == Some(t)) by {
                    if used@.contains(t) && t != s {
                        let j = choose|j: int| 0 <= j < used@.len() && used@[j] == t;
                        assert(old(used)@[j] == t);
                    }
                    if old(used)@.contains(t) {
                        let j = choose|j: int| 0 <= j < old(used)@.len() && old(used)@[j] == t;
                        assert(used@[j] == t);
                    }
                    if t == s {
                        assert(used@[used@.len() - 1] == t);
                    }
                }
            }
        },
        _ => {},
    }
}


/// The invariant of a roll in progress: the lines obey the drop laws
/// and `used` records exactly the implicit and line stats.
pub open spec fn spec_acc_ok(base: BaseItem, lines: Seq<PlannedLine>, used: Seq<Stat>) -> bool {
    spec_lines_ok(base, lines) && spec_used_ok(base, lines, used)
}

/// A line may join a roll in progress: it comes from a pool, obeys the
/// family rule of its kind, and (for axis-free bases) adds no stat that
/// is already used.
pub open spec fn spec_line_fits(base: BaseItem, used: Seq<Stat>, d: AffixDef) -> bool {
    &&& spec_affix_pool().contains(d) || spec_resonance_pool().contains(d)
    &&& !spec_is_resonance(d) ==> spec_in_family(base, d)
    &&& spec_is_resonance(d) ==> spec_cross_family(base, d)
    &&& spec_implicit_axis_free(base) ==> match spec_stat_of(d) {
        Some(s) => !used.contains(s),
        None => true,
    }
}

/// Pushing a fitting line keeps the invariant.
proof fn lemma_push_keeps_ok(
    base: BaseItem,
    lines: Seq<PlannedLine>,
    used: Seq<Stat>,
    l: PlannedLine,
    used2: Seq<Stat>,
)
    requires
        spec_acc_ok(base, lines, used),
        spec_line_fits(base, used, l.def),
        l.magnitude is Fixed <==> l.def.roll.0 == l.def.roll.1,
        forall|s: Stat|
            #![trigger used2.contains(s)]
            used2.contains(s) <==> (used.contains(s) || spec_stat_of(l.def) == Some(s)),
    ensures
        spec_acc_ok(base, lines.push(l), used2),
{
    let t = lines.push(l);
    assert forall|i: int| 0 <= i < t.len() implies ((#[trigger] t[i]).magnitude is Fixed <==> t[i].def.roll.0
        == t[i].def.roll.1) by {
        if i < lines.len() {
            assert(t[i] == lines[i]);
        }
    }
    assert forall|i: int| 0 <= i < t.len() implies spec_affix_pool().contains(#[trigger] t[i].def)
        || spec_resonance_pool().contains(t[i].def) by {
        if i < lines.len() {
            assert(t[i] == lines[i]);
        }
    }
    assert forall|i: int| 0 <= i < t.len() && !spec_is_resonance(#[trigger] t[i].def) implies spec_in_family(base, t[i].def) by {
        if i < lines.len() {
            assert(t[i] == lines[i]);
        }
    }
    assert forall|i: int| 0 <= i < t.len() && spec_is_resonance(#[trigger] t[i].def) implies spec_cross_family(base, t[i].def) by {
        if i < lines.len() {
            assert(t[i] == lines[i]);
        }
    }
    if spec_implicit_axis_free(base) {
        assert forall|i: int, j: int|
            0 <= i < j < t.len() && (#[trigger] spec_stat_of(t[i].def)) is Some implies spec_stat_of(t[i].def)
                != #[trigger] spec_stat_of(t[j].def) by {
            assert(t[i] == lines[i]);
            if j < lines.len() {
                assert(t[j] == lines[j]);
            } else {
                let s = spec_stat_of(t[i].def)->Some_0;
                assert(used.contains(s));
            }
        }
        assert forall|i: int| 0 <= i < t.len() implies match #[trigger] spec_stat_of(t[i].def) {
            Some(s) => !spec_implicit_has(base, s),
            None => true,
        } by {
            if i < lines.len() {
                assert(t[i] == lines[i]);
            } else {
                match spec_stat_of(t[i].def) {
                    Some(s) => {
                        assert(!used.contains(s));
                    },
                    None => {},
                }
            }
        }
    }
    assert forall|s: Stat| #![trigger used2.contains(s)]
        used2.contains(s) <==> (spec_implicit_has(base, s) || exists|i: int|
            0 <= i < t.len() && #[trigger] spec_stat_of(t[i].def) == Some(s)) by {
        if used.contains(s) && !spec_implicit_has(base, s) {
            let i = choose|i: int| 0 <= i < lines.len() && #[trigger] spec_stat_of(lines[i].def) == Some(s);
            assert(t[i] == lines[i]);
        }
        if spec_stat_of(l.def) == Some(s) {
            assert(t[lines.len() as int] == l);
        }
        if exists|i: int| 0 <= i < t.len() && #[trigger] spec_stat_of(t[i].def) == Some(s) {
            let i = choose|i: int| 0 <= i < t.len() && #[trigger] spec_stat_of(t[i].def) == Some(s);
            if i < lines.len() {
                assert(t[i] == lines[i]);
            }
        }
    }
}

/// A signature line: a main-pool stat row on neither axis.
pub open spec fn spec_signature_row(d: AffixDef) -> bool {
    spec_affix_pool().contains(d) && spec_is_plain(d) && spec_stat_of(d) is Some
}

/// Every signature id resolves to a signature row.
proof fn lemma_signature_rows(slot: EquipSlot, j: int)
    requires
        0 <= j < spec_signature_for(slot).len(),
    ensures
        spec_find_id(spec_all_affixes(), spec_signature_for(slot)[j]@, 0) matches Some(d) && spec_signature_row(d),
{
    super::affixes::lemma_signature_ids_resolve();
    super::affixes::lemma_pool_prefixes();
    let p = spec_affix_pool();
    assert(p[14] == p[14] && p[4] == p[4] && p[3] == p[3] && p[12] == p[12] && p[13] == p[13] && p[6] == p[6]);
    assert(p.contains(p[14]) && p.contains(p[4]) && p.contains(p[3]));
    assert(p.contains(p[12]) && p.contains(p[13]) && p.contains(p[6]));
}

/// `true` if some line of `defs` adds stat `s`.
pub open spec fn spec_stat_in(defs: Seq<AffixDef>, s: Stat) -> bool {
    exists|k: int| 0 <= k < defs.len() && spec_stat_of(#[trigger] defs[k]) == Some(s)
}

/// The signature lines a roll opens with, for signature ids `ids`: each
/// id is looked up, and its line is kept unless its stat is already
/// carried by one of the base's implicits or by an earlier kept line.
pub open spec fn spec_kept_signatures(base: BaseItem, ids: Seq<&'static str>) -> Seq<AffixDef>
    decreases ids.len(),
{
    if ids.len() == 0 {
        Seq::empty()
    } else {
        let prev = spec_kept_signatures(base, ids.drop_last());
        match spec_find_id(spec_all_affixes(), ids.last()@, 0) {
            Some(d) => match spec_stat_of(d) {
                Some(s) => if spec_implicit_has(base, s) || spec_stat_in(prev, s) {
                    prev
                } else {
                    prev.push(d)
                },
                None => prev.push(d),
            },
            None => prev,
        }
    }
}

/// The signature lines a roll opens with, magnitudes included, and the
/// generator state after them: each signature id is looked up, and its
/// line is kept, drawing its magnitude, unless its stat is already
/// taken.
pub open spec fn spec_signature_phase(base: BaseItem, ids: Seq<&'static str>, g: u64) -> (Seq<PlannedLine>, u64)
    decreases ids.len(),
{
    if ids.len() == 0 {
        (Seq::empty(), g)
    } else {
        let prev = spec_signature_phase(base, ids.drop_last(), g);
        match spec_find_id(spec_all_affixes(), ids.last()@, 0) {
            Some(d) => match spec_stat_of(d) {
                Some(st) => if spec_taken(base, prev.0, st) {
                    prev
                } else {
                    spec_push_drawn(prev.0, d, prev.1)
                },
                None => spec_push_drawn(prev.0, d, prev.1),
            },
            None => prev,
        }
    }
}

/// The affixes of a run of planned lines.
pub open spec fn spec_line_defs(lines: Seq<PlannedLine>) -> Seq<AffixDef> {
    lines.map_values(|l: PlannedLine| l.def)
}

/// Signature lines of the base's slot: each id is looked up and kept
/// unless its stat is already used; a kept line draws its magnitude.
fn add_signature_lines(base: &BaseItem, rng: &mut LootRng, lines: &mut Vec<PlannedLine>, used: &mut Vec<Stat>)
    requires
        spec_acc_ok(*base, old(lines)@, old(used)@),
        old(lines)@.len() == 0,
    ensures
        spec_acc_ok(*base, final(lines)@, final(used)@),
        forall|i: int| 0 <= i < final(lines)@.len() ==> spec_is_plain(#[trigger] final(lines)@[i].def),
        spec_line_defs(final(lines)@) == spec_kept_signatures(*base, spec_signature_for(base.equip_slot)),
        (final(lines)@, final(rng).state()) == spec_signature_phase(
            *base,
            spec_signature_for(base.equip_slot),
            old(rng).state(),
        ),
{
    let ids = signature_for(base.equip_slot, rng);
    proof {
        assert(ids@.take(0) =~= Seq::<&'static str>::empty());
        assert(spec_line_defs(lines@) =~= Seq::<AffixDef>::empty());
    }
    let mut j: usize = 0;
    while j < ids.len()
        invariant
            j <= ids@.len(),
            ids@ == spec_signature_for(base.equip_slot),
            spec_acc_ok(*base, lines@, used@),
            forall|i: int| 0 <= i < lines@.len() ==> spec_is_plain(#[trigger] lines@[i].def),
            spec_line_defs(lines@) == spec_kept_signatures(*base, ids@.take(j as int)),
            (lines@, rng.state()) == spec_signature_phase(*base, ids@.take(j as int), old(rng).state()),
        decreases ids@.len() - j,
    {
        proof {
            lemma_signature_rows(base.equip_slot, j as int);
            assert(ids@.take(j + 1).drop_last() =~= ids@.take(j as int));
            assert(ids@.take(j + 1).last() == ids@[j as int]);
            let defs = spec_line_defs(lines@);
            assert forall|t: Stat| used@.contains(t) <==> (spec_implicit_has(*base, t) || spec_stat_in(defs, t)) by {
                if spec_stat_in(defs, t) {
                    let k = choose|k: int| 0 <= k < defs.len() && spec_stat_of(#[trigger] defs[k]) == Some(t);
                    assert(defs[k] == lines@[k].def);
                }
                if exists|i: int| 0 <= i < lines@.len() && #[trigger] spec_stat_of(lines@[i].def) == Some(t) {
                    let i = choose|i: int| 0 <= i < lines@.len() && #[trigger] spec_stat_of(lines@[i].def) == Some(t);
                    assert(defs[i] == lines@[i].def);
                }
            }
        }
        if let Some(def) = lookup(ids[j]) {
            let skip = match def.effect {
                AffixEffect::Stat(s) => stat_used(used, s),
                _ => false,
            };
            if !skip {
                let m = draw_magnitude(&def, rng);
                let ghost old_lines = lines@;
                let ghost old_used = used@;
                push_line(lines, used, def, m);
                proof {
                    lemma_push_keeps_ok(*base, old_lines, old_used, PlannedLine { def, magnitude: m }, used@);
                    assert forall|i: int| 0 <= i < lines@.len() implies spec_is_plain(#[trigger] lines@[i].def) by {
                        if i < old_lines.len() {
                            assert(lines@[i] == old_lines[i]);
                        }
                    }
                    assert(spec_line_defs(lines@) =~= spec_line_defs(old_lines).push(def));
                }
            }
        }
        j = j + 1;
    }
    proof {
        assert(ids@.take(ids@.len() as int) =~= ids@);
    }
}


/// Members of a filtered sequence satisfy the filter and come from the
/// unfiltered sequence.
proof fn lemma_filter_member<A>(s: Seq<A>, p: spec_fn(A) -> bool, i: int)
    requires
        0 <= i < s.filter(p).len(),
    ensures
        p(s.filter(p)[i]),
        s.contains(s.filter(p)[i]),
{
    s.lemma_filter_pred(p, i);
    assert(s.filter(p).contains(s.filter(p)[i]));
    s.lemma_filter_contains_rev(p, s.filter(p)[i]);
}

/// Filtering after a push adds the pushed element when it passes.
proof fn lemma_filter_push<A>(s: Seq<A>, x: A, p: spec_fn(A) -> bool)
    ensures
        s.push(x).filter(p) == (if p(x) { s.filter(p).push(x) } else { s.filter(p) }),
{
    reveal(Seq::filter);
    assert(s.push(x).drop_last() =~= s);
}

/// Whether a pool row can be the `cat` axis line of this base.
fn axis_ok(base: &BaseItem, ilvl: u32, cat: AffixCategory, d: &AffixDef) -> (r: bool)
    ensures
        r == spec_axis_ok(*base, ilvl, cat, *d),
{
    if d.min_ilvl > ilvl {
        return false;
    }
    if category(d) != cat {
        return false;
    }
    match cat {
        AffixCategory::Element => match affix_element(d) {
            Some(e) => base.family.allows_element(e),
            None => false,
        },
        AffixCategory::Archetype => match affix_archetype(d) {
            Some(r) => base.family.allows_archetype(r),
            None => false,
        },
        AffixCategory::Attribute => match affix_attribute(d) {
            Some(a) => base.family.allows_attribute(a),
            None => false,
        },
        _ => false,
    }
}

/// Uniform pick among the `cat` axis candidates; `None`, without a
/// draw, when there are none.
fn pick_axis(base: &BaseItem, ilvl: u32, rng: &mut LootRng, cat: AffixCategory) -> (r: Option<AffixDef>)
    ensures
        ({
            let c = spec_axis_candidates(*base, ilvl, cat);
            &&& c.len() == 0 ==> r is None && final(rng).state() == old(rng).state()
            &&& c.len() > 0 ==> r == Some(c[(spec_xorshift(old(rng).state()) % (c.len() as u64)) as int])
                && final(rng).state() == spec_xorshift(old(rng).state())
        }),
{
    let pool = affix_pool();
    let ghost pred = |d: AffixDef| spec_axis_ok(*base, ilvl, cat, d);
    let mut cands: Vec<AffixDef> = Vec::new();
    let mut i: usize = 0;
    while i < pool.len()
        invariant
            pool@ == spec_affix_pool(),
            i <= pool@.len(),
            pred == (|d: AffixDef| spec_axis_ok(*base, ilvl, cat, d)),
            cands@ == pool@.take(i as int).filter(pred),
        decreases pool@.len() - i,
    {
        proof {
            assert(pool@.take(i + 1) =~= pool@.take(i as int).push(pool@[i as int]));
            lemma_filter_push(pool@.take(i as int), pool@[i as int], pred);
        }
        if axis_ok(base, ilvl, cat, &pool[i]) {
            cands.push(pool[i]);
        }
        i = i + 1;
    }
    proof {
        assert(pool@.take(pool@.len() as int) =~= pool@);
    }
    if cands.len() == 0 {
        return None;
    }
    let idx = rng.range(0, cands.len() as u32);
    Some(cands[idx as usize])
}

/// A line carries no value on axis `cat`.
pub open spec fn spec_axis_none(cat: AffixCategory, d: AffixDef) -> bool {
    match cat {
        AffixCategory::Attribute => spec_affix_attribute(d) is None,
        AffixCategory::Element => spec_affix_element(d) is None,
        AffixCategory::Archetype => spec_affix_archetype(d) is None,
        _ => true,
    }
}

/// The attribute (element, archetype) step of a roll from generator state `g`:
/// a uniform pick among the candidates, appended with its magnitude;
/// nothing, and no draw, without candidates.
pub open spec fn spec_axis_phase(
    base: BaseItem,
    ilvl: u32,
    cat: AffixCategory,
    lines: Seq<PlannedLine>,
    g: u64,
) -> (Seq<PlannedLine>, u64) {
    let c = spec_axis_candidates(base, ilvl, cat);
    if c.len() == 0 {
        (lines, g)
    } else {
        let g1 = spec_xorshift(g);
        spec_push_drawn(lines, c[(g1 % (c.len() as u64)) as int], g1)
    }
}

/// The attribute (element, archetype) line of a drop: a uniform pick
/// among the family-allowed candidates, appended with its magnitude
/// draw; nothing when there is no candidate. Returns whether a line was
/// added.
fn add_axis_line(
    base: &BaseItem,
    ilvl: u32,
    rng: &mut LootRng,
    cat: AffixCategory,
    lines: &mut Vec<PlannedLine>,
    used: &mut Vec<Stat>,
) -> (added: bool)
    requires
        cat == AffixCategory::Attribute || cat == AffixCategory::Element || cat == AffixCategory::Archetype,
        spec_acc_ok(*base, old(lines)@, old(used)@),
        forall|i: int| 0 <= i < old(lines)@.len() ==> spec_axis_none(cat, #[trigger] old(lines)@[i].def),
    ensures
        spec_acc_ok(*base, final(lines)@, final(used)@),
        added == (spec_axis_candidates(*base, ilvl, cat).len() > 0),
        final(lines)@.len() == old(lines)@.len() + (if added {
            1int
        } else {
            0int
        }),
        final(lines)@.subrange(0, old(lines)@.len() as int) == old(lines)@,
        (final(lines)@, final(rng).state()) == spec_axis_phase(*base, ilvl, cat, old(lines)@, old(rng).state()),
        forall|i: int|
            old(lines)@.len() <= i < final(lines)@.len() ==> !spec_is_resonance(#[trigger] final(lines)@[i].def)
                && !spec_axis_none(cat, final(lines)@[i].def) && spec_category(final(lines)@[i].def) == cat,
{
    let ghost c = spec_axis_candidates(*base, ilvl, cat);
    let picked = pick_axis(base, ilvl, rng, cat);
    if let Some(def) = picked {
        proof {
            let k = (spec_xorshift(old(rng).state()) % (c.len() as u64)) as int;
            lemma_filter_member(spec_affix_pool(), |d: AffixDef| spec_axis_ok(*base, ilvl, cat, d), k);
            assert(spec_axis_ok(*base, ilvl, cat, def));
            if spec_implicit_axis_free(*base) {
                match spec_stat_of(def) {
                    Some(s) => {
                        if used@.contains(s) {
                            if spec_implicit_has(*base, s) {
                                let kk = choose|kk: int| 0 <= kk < base.implicit@.len() && #[trigger] base.implicit@[kk].0 == s;
                                assert(!(base.implicit@[kk].0 == Stat::Strength || base.implicit@[kk].0 == Stat::Agility
                                    || base.implicit@[kk].0 == Stat::Intellect || base.implicit@[kk].0 == Stat::PhysicalDamage
                                    || base.implicit@[kk].0 == Stat::FireDamage || base.implicit@[kk].0 == Stat::IceDamage
                                    || base.implicit@[kk].0 == Stat::LightningDamage));
                            } else {
                                let i = choose|i: int| 0 <= i < lines@.len() && #[trigger] spec_stat_of(lines@[i].def) == Some(s);
                                assert(spec_axis_none(cat, lines@[i].def));
                            }
                        }
                    },
                    None => {},
                }
            }
        }
        let m = draw_magnitude(&def, rng);
        let ghost old_lines = lines@;
        let ghost old_used = used@;
        push_line(lines, used, def, m);
        proof {
            lemma_push_keeps_ok(*base, old_lines, old_used, PlannedLine { def, magnitude: m }, used@);
            assert(lines@.subrange(0, old_lines.len() as int) =~= old_lines);
        }
        true
    } else {
        proof {
            assert(lines@.subrange(0, lines@.len() as int) =~= lines@);
        }
        false
    }
}


/// Every main-pool weight is at most 100.
proof fn lemma_pool_weights()
    ensures
        forall|k: int| 0 <= k < spec_affix_pool().len() ==> (#[trigger] spec_affix_pool()[k]).weight <= 100,
{
}

/// A weight list whose entries are all at most `b` sums to at most
/// `b * len`.
proof fn lemma_weight_sum_bound(w: Seq<u32>, b: nat)
    requires
        forall|i: int| 0 <= i < w.len() ==> w[i] <= b,
    ensures
        spec_weight_sum(w) <= b * w.len(),
    decreases w.len(),
{
    if w.len() > 0 {
        assert forall|i: int| 0 <= i < w.drop_first().len() implies w.drop_first()[i] <= b by {
            assert(w.drop_first()[i] == w[i + 1]);
        }
        lemma_weight_sum_bound(w.drop_first(), b);
        assert(b * w.len() == b * w.drop_first().len() + b) by (nonlinear_arith)
            requires
                w.len() == w.drop_first().len() + 1,
        ;
    }
}

/// `true` if some line already carries the affix id `id`.
pub open spec fn spec_has_id(lines: Seq<PlannedLine>, id: Seq<char>) -> bool {
    exists|i: int| 0 <= i < lines.len() && (#[trigger] lines[i]).def.id@ == id
}

fn has_id(lines: &Vec<PlannedLine>, id: &str) -> (r: bool)
    ensures
        r == spec_has_id(lines@, id@),
{
    let mut i: usize = 0;
    while i < lines.len()
        invariant
            i <= lines@.len(),
            forall|j: int| 0 <= j < i ==> (#[trigger] lines@[j]).def.id@ != id@,
        decreases lines@.len() - i,
    {
        if crate::text::str_eq(lines[i].def.id, id) {
            return true;
        }
        i = i + 1;
    }
    false
}

/// The bonus-pool filter: a weighted bonus row, not a legendary effect,
/// within item level and rarity, tag-compatible with the base, not
/// already on the item (by id or by stat), and on weapons an offensive
/// stat.
pub open spec fn spec_bonus_ok(
    base: BaseItem,
    rarity: Rarity,
    ilvl: u32,
    lines: Seq<PlannedLine>,
    used: Seq<Stat>,
    a: AffixDef,
) -> bool {
    &&& spec_category(a) == AffixCategory::Bonus
    &&& !spec_is_legendary_effect(a.effect)
    &&& a.weight != 0
    &&& a.min_ilvl <= ilvl
    &&& rarity.spec_at_least(a.rarity_min)
    &&& a.tags & base.allowed_tags != 0
    &&& !spec_has_id(lines, a.id@)
    &&& match spec_stat_of(a) {
        Some(s) => !used.contains(s) && (base.equip_slot == EquipSlot::Weapon ==> s.spec_is_offensive_bonus()),
        None => true,
    }
}

/// The item-independent gates of a bonus line: a weighted, non-legendary
/// bonus affix within item level and rarity, tag-compatible with the
/// base, and, on a weapon, a stat line only from the offensive group.
pub open spec fn spec_bonus_gates(base: BaseItem, rarity: Rarity, ilvl: u32, a: AffixDef) -> bool {
    &&& spec_category(a) == AffixCategory::Bonus
    &&& !spec_is_legendary_effect(a.effect)
    &&& a.weight != 0
    &&& a.min_ilvl <= ilvl
    &&& rarity.spec_at_least(a.rarity_min)
    &&& a.tags & base.allowed_tags != 0
    &&& match spec_stat_of(a) {
        Some(s) => base.equip_slot == EquipSlot::Weapon ==> s.spec_is_offensive_bonus(),
        None => true,
    }
}

fn bonus_ok(
    base: &BaseItem,
    rarity: Rarity,
    ilvl: u32,
    lines: &Vec<PlannedLine>,
    used: &Vec<Stat>,
    a: &AffixDef,
) -> (r: bool)
    ensures
        r == spec_bonus_ok(*base, rarity, ilvl, lines@, used@, *a),
{
    if category(a) != AffixCategory::Bonus {
        return false;
    }
    if is_legendary_effect(&a.effect) {
        return false;
    }
    if a.weight == 0 {
        return false;
    }
    if a.min_ilvl > ilvl {
        return false;
    }
    if !rarity.at_least(a.rarity_min) {
        return false;
    }
    if a.tags & base.allowed_tags == 0 {
        return false;
    }
    if has_id(lines, a.id) {
        return false;
    }
    match a.effect {
        AffixEffect::Stat(s) => {
            if stat_used(used, s) {
                return false;
            }
            if base.equip_slot == EquipSlot::Weapon && !s.is_offensive_bonus() {
                return false;
            }
            true
        },
        _ => true,
    }
}

/// The bonus filter over the lines so far, with the taken stats read
/// off the base and the lines.
pub open spec fn spec_bonus_pick_ok(base: BaseItem, rarity: Rarity, ilvl: u32, lines: Seq<PlannedLine>, a: AffixDef) -> bool {
    &&& spec_bonus_gates(base, rarity, ilvl, a)
    &&& !spec_has_id(lines, a.id@)
    &&& match spec_stat_of(a) {
        Some(s) => !spec_taken(base, lines, s),
        None => true,
    }
}

/// The bonus candidates given the lines so far, in pool order.
pub open spec fn spec_bonus_candidates(base: BaseItem, rarity: Rarity, ilvl: u32, lines: Seq<PlannedLine>) -> Seq<
    AffixDef,
> {
    spec_affix_pool().filter(|a: AffixDef| spec_bonus_pick_ok(base, rarity, ilvl, lines, a))
}

/// A bonus candidate's pick weight: doubled when it carries one of the
/// base's favoured tags.
pub open spec fn spec_bonus_weight(base: BaseItem, a: AffixDef) -> u32 {
    if a.tags & base.favored_tags != 0 {
        (a.weight * 2) as u32
    } else {
        a.weight
    }
}

pub open spec fn spec_bonus_weights(base: BaseItem, c: Seq<AffixDef>) -> Seq<u32> {
    c.map_values(|a: AffixDef| spec_bonus_weight(base, a))
}

/// Up to `n` bonus picks from generator state `g`: each a weighted pick
/// among the current candidates, appended with its magnitude; stops
/// when no candidate is left.
pub open spec fn spec_bonus_steps(
    base: BaseItem,
    rarity: Rarity,
    ilvl: u32,
    lines: Seq<PlannedLine>,
    g: u64,
    n: nat,
) -> (Seq<PlannedLine>, u64)
    decreases n,
{
    if n == 0 {
        (lines, g)
    } else {
        let c = spec_bonus_candidates(base, rarity, ilvl, lines);
        let w = spec_bonus_weights(base, c);
        if c.len() == 0 || spec_weight_sum(w) == 0 {
            (lines, g)
        } else {
            let g1 = spec_xorshift(g);
            let k = spec_weighted_pick(w, (g1 % (spec_weight_sum(w) as u64)) as nat)->0;
            let next = spec_push_drawn(lines, c[k as int], g1);
            spec_bonus_steps(base, rarity, ilvl, next.0, next.1, (n - 1) as nat)
        }
    }
}

/// The bonus step of a roll from generator state `g`: the count is
/// drawn from the rarity's range, then that many bonus picks.
pub open spec fn spec_bonus_phase(
    base: BaseItem,
    rarity: Rarity,
    ilvl: u32,
    lines: Seq<PlannedLine>,
    g: u64,
) -> (Seq<PlannedLine>, u64) {
    let lo = rarity.spec_affix_count_range().0;
    let top = rarity.spec_affix_count_range().1 + 1;
    if top <= lo {
        spec_bonus_steps(base, rarity, ilvl, lines, g, lo as nat)
    } else {
        let g1 = spec_xorshift(g);
        spec_bonus_steps(base, rarity, ilvl, lines, g1, (lo + g1 % ((top - lo) as u64)) as nat)
    }
}

/// `n` bonus steps add `n` lines, or fewer only when the bonus
/// candidates left afterwards have run out.
pub proof fn lemma_bonus_steps_count(
    base: BaseItem,
    rarity: Rarity,
    ilvl: u32,
    lines: Seq<PlannedLine>,
    g: u64,
    n: nat,
)
    ensures
        ({
            let r = spec_bonus_steps(base, rarity, ilvl, lines, g, n).0;
            let c = spec_bonus_candidates(base, rarity, ilvl, r);
            &&& lines.len() <= r.len() <= lines.len() + n
            &&& r.len() < lines.len() + n ==> c.len() == 0 || spec_weight_sum(spec_bonus_weights(base, c)) == 0
        }),
    decreases n,
{
    if n > 0 {
        let c = spec_bonus_candidates(base, rarity, ilvl, lines);
        let w = spec_bonus_weights(base, c);
        if !(c.len() == 0 || spec_weight_sum(w) == 0) {
            let g1 = spec_xorshift(g);
            let k = spec_weighted_pick(w, (g1 % (spec_weight_sum(w) as u64)) as nat)->0;
            let next = spec_push_drawn(lines, c[k as int], g1);
            lemma_bonus_steps_count(base, rarity, ilvl, next.0, next.1, (n - 1) as nat);
        }
    }
}

/// The bonus step adds exactly as many lines as the rarity's rank (0 for
/// Common up to 3 for Legendary), or fewer only when the candidates run
/// out.
pub proof fn lemma_bonus_phase_count(base: BaseItem, rarity: Rarity, ilvl: u32, lines: Seq<PlannedLine>, g: u64)
    ensures
        ({
            let r = spec_bonus_phase(base, rarity, ilvl, lines, g).0;
            let c = spec_bonus_candidates(base, rarity, ilvl, r);
            &&& lines.len() <= r.len() <= lines.len() + rarity.spec_rank()
            &&& r.len() < lines.len() + rarity.spec_rank() ==> c.len() == 0 || spec_weight_sum(
                spec_bonus_weights(base, c),
            ) == 0
        }),
{
    super::rarity::lemma_bonus_count_is_rank(rarity);
    let lo = rarity.spec_affix_count_range().0;
    let g1 = spec_xorshift(g);
    assert(g1 % 1u64 == 0) by (bit_vector);
    assert((lo + g1 % ((lo + 1 - lo) as u64)) as nat == lo as nat);
    lemma_bonus_steps_count(base, rarity, ilvl, lines, g1, lo as nat);
}

/// Bonus lines: `rarity.affix_count_range()` draws the count; each line
/// is a weighted pick from the bonus filter (favoured tags weigh
/// double), stopping early when nothing is left.
fn add_bonus_lines(
    base: &BaseItem,
    rarity: Rarity,
    ilvl: u32,
    rng: &mut LootRng,
    lines: &mut Vec<PlannedLine>,
    used: &mut Vec<Stat>,
)
    requires
        spec_acc_ok(*base, old(lines)@, old(used)@),
    ensures
        spec_acc_ok(*base, final(lines)@, final(used)@),
        old(lines)@.len() <= final(lines)@.len() <= old(lines)@.len() + rarity.spec_affix_count_range().1,
        final(lines)@.subrange(0, old(lines)@.len() as int) == old(lines)@,
        forall|i: int|
            old(lines)@.len() <= i < final(lines)@.len() ==> spec_is_plain(#[trigger] final(lines)@[i].def)
                && spec_bonus_gates(*base, rarity, ilvl, final(lines)@[i].def),
        (final(lines)@, final(rng).state()) == spec_bonus_phase(*base, rarity, ilvl, old(lines)@, old(rng).state()),
{
    let (lo, hi) = rarity.affix_count_range();
    let count = rng.range(lo, hi + 1);
    let pool = affix_pool();
    let ghost start = lines@;
    let ghost target = spec_bonus_steps(*base, rarity, ilvl, lines@, rng.state(), count as nat);
    assert(target == spec_bonus_phase(*base, rarity, ilvl, old(lines)@, old(rng).state()));
    proof {
        lemma_pool_weights();
    }
    let mut n: u32 = 0;
    while n < count
        invariant
            pool@ == spec_affix_pool(),
            forall|k: int| 0 <= k < spec_affix_pool().len() ==> (#[trigger] spec_affix_pool()[k]).weight <= 100,
            count <= hi,
            hi == rarity.spec_affix_count_range().1,
            n <= count,
            spec_acc_ok(*base, lines@, used@),
            start.len() <= lines@.len() <= start.len() + n,
            lines@.subrange(0, start.len() as int) == start,
            forall|i: int|
                start.len() <= i < lines@.len() ==> spec_is_plain(#[trigger] lines@[i].def)
                    && spec_bonus_gates(*base, rarity, ilvl, lines@[i].def),
            spec_bonus_steps(*base, rarity, ilvl, lines@, rng.state(), (count - n) as nat) == target,
        ensures
            (lines@, rng.state()) == target,
            spec_acc_ok(*base, lines@, used@),
            start.len() <= lines@.len() <= start.len() + count,
            lines@.subrange(0, start.len() as int) == start,
            forall|i: int|
                start.len() <= i < lines@.len() ==> spec_is_plain(#[trigger] lines@[i].def)
                    && spec_bonus_gates(*base, rarity, ilvl, lines@[i].def),
        decreases count - n,
    {
        let ghost pred = |a: AffixDef| spec_bonus_pick_ok(*base, rarity, ilvl, lines@, a);
        let ghost st = rng.state();
        let mut cands: Vec<AffixDef> = Vec::new();
        let mut weights: Vec<u32> = Vec::new();
        let mut i: usize = 0;
        while i < pool.len()
            invariant
                pool@ == spec_affix_pool(),
                forall|k: int| 0 <= k < spec_affix_pool().len() ==> (#[trigger] spec_affix_pool()[k]).weight <= 100,
                i <= pool@.len(),
                cands@.len() == weights@.len(),
                cands@.len() <= i,
                forall|k: int|
                    0 <= k < cands@.len() ==> spec_affix_pool().contains(#[trigger] cands@[k])
                        && spec_bonus_ok(*base, rarity, ilvl, lines@, used@, cands@[k]),
                forall|k: int| 0 <= k < weights@.len() ==> #[trigger] weights@[k] <= 200,
                spec_acc_ok(*base, lines@, used@),
                pred == (|a: AffixDef| spec_bonus_pick_ok(*base, rarity, ilvl, lines@, a)),
                cands@ == pool@.take(i as int).filter(pred),
                weights@ == spec_bonus_weights(*base, cands@),
            decreases pool@.len() - i,
        {
            let a = pool[i];
            proof {
                assert(pool@.take(i + 1) =~= pool@.take(i as int).push(pool@[i as int]));
                lemma_filter_push(pool@.take(i as int), pool@[i as int], pred);
                assert(spec_bonus_ok(*base, rarity, ilvl, lines@, used@, a) == pred(a)) by {
                    match spec_stat_of(a) {
                        Some(t) => {
                            assert(used@.contains(t) <==> spec_taken(*base, lines@, t));
                        },
                        None => {},
                    }
                }
            }
            if bonus_ok(base, rarity, ilvl, lines, used, &a) {
                proof {
                    assert(spec_affix_pool().contains(pool@[i as int]));
                }
                let w = if a.tags & base.favored_tags != 0 {
                    a.weight * 2
                } else {
                    a.weight
                };
                proof {
                    assert(spec_bonus_weights(*base, cands@.push(a)) =~= spec_bonus_weights(*base, cands@).push(w));
                }
                cands.push(a);
                weights.push(w);
            }
            i = i + 1;
        }
        proof {
            assert(pool@.take(pool@.len() as int) =~= pool@);
            assert(cands@ == spec_bonus_candidates(*base, rarity, ilvl, lines@));
        }
        if cands.len() == 0 {
            break;
        }
        proof {
            lemma_weight_sum_bound(weights@, 200);
            assert(200 * weights@.len() <= 200 * 27) by (nonlinear_arith)
                requires
                    weights@.len() <= 27,
            ;
        }
        let picked = rng.weighted_index(&weights);
        match picked {
            None => {
                break;
            },
            Some(k) => {
                let def = cands[k];
                let m = draw_magnitude(&def, rng);
                let ghost old_lines = lines@;
                let ghost old_used = used@;
                proof {
                    assert(spec_bonus_ok(*base, rarity, ilvl, old_lines, old_used, def));
                }
                push_line(lines, used, def, m);
                proof {
                    lemma_push_keeps_ok(*base, old_lines, old_used, PlannedLine { def, magnitude: m }, used@);
                    assert forall|i: int|
                        start.len() <= i < lines@.len() implies spec_is_plain(#[trigger] lines@[i].def)
                            && spec_bonus_gates(*base, rarity, ilvl, lines@[i].def) by {
                        if i < old_lines.len() {
                            assert(lines@[i] == old_lines[i]);
                        }
                    }
                    assert(lines@.subrange(0, start.len() as int) =~= old_lines.subrange(0, start.len() as int));
                    assert((lines@, rng.state()) == spec_push_drawn(old_lines, def, spec_xorshift(st)));
                }
            },
        }
        n = n + 1;
    }
}


/// The procedural legendary-effect filter: a weighted legendary effect
/// within item level, tag-compatible with the base, not already on the
/// item.
pub open spec fn spec_effect_ok(base: BaseItem, ilvl: u32, lines: Seq<PlannedLine>, a: AffixDef) -> bool {
    &&& spec_is_legendary_effect(a.effect)
    &&& a.tags & base.allowed_tags != 0
    &&& a.min_ilvl <= ilvl
    &&& a.weight > 0
    &&& !spec_has_id(lines, a.id@)
}

/// What the legendary step decided: the matched unique's id and its
/// sampled pool index.
pub open spec fn spec_legendary_ok(
    base: BaseItem,
    rarity: Rarity,
    unique_id: Option<&'static str>,
    unique_pick: Option<u8>,
) -> bool {
    let cands = spec_uniques().filter(|u: UniqueDef| spec_unique_fits(u, base));
    &&& (rarity == Rarity::Legendary && cands.len() > 0) <==> unique_id is Some
    &&& unique_id matches Some(id) ==> exists|k: int|
        0 <= k < cands.len() && (#[trigger] cands[k]).id == id && (match unique_pick {
            Some(p) => cands[k].spec_needs_pick() && (p as int) < (if cands[k].spec_pool_len() > 0 {
                cands[k].spec_pool_len() as int
            } else {
                1int
            }),
            None => !cands[k].spec_needs_pick(),
        })
    &&& unique_id is None ==> unique_pick is None
}

/// The procedural legendary-effect candidates given the lines so far,
/// in pool order.
pub open spec fn spec_effect_candidates(base: BaseItem, ilvl: u32, lines: Seq<PlannedLine>) -> Seq<AffixDef> {
    spec_affix_pool().filter(|a: AffixDef| spec_effect_ok(base, ilvl, lines, a))
}

pub open spec fn spec_effect_weights(e: Seq<AffixDef>) -> Seq<u32> {
    e.map_values(|a: AffixDef| a.weight)
}

/// The legendary step of a roll from generator state `g`: the unique id
/// and pick it records, the lines and the state after. Only Legendary
/// drops take it: a uniform pick among the fitting uniques (a pool
/// unique then draws its index), else a weighted pick among the
/// procedural legendary effects, appended with its magnitude.
pub open spec fn spec_legendary_phase(
    base: BaseItem,
    rarity: Rarity,
    ilvl: u32,
    lines: Seq<PlannedLine>,
    g: u64,
) -> (Option<&'static str>, Option<u8>, Seq<PlannedLine>, u64) {
    if rarity != Rarity::Legendary {
        (None, None, lines, g)
    } else {
        let cs = spec_uniques().filter(|u: UniqueDef| spec_unique_fits(u, base));
        if cs.len() > 0 {
            let g1 = spec_xorshift(g);
            let u = cs[(g1 % (cs.len() as u64)) as int];
            if u.spec_needs_pick() {
                let len: u32 = if u.spec_pool_len() > 0 {
                    u.spec_pool_len() as u32
                } else {
                    1
                };
                let g2 = spec_xorshift(g1);
                (Some(u.id), Some((g2 % (len as u64)) as u8), lines, g2)
            } else {
                (Some(u.id), None, lines, g1)
            }
        } else {
            let e = spec_effect_candidates(base, ilvl, lines);
            let w = spec_effect_weights(e);
            if e.len() == 0 || spec_weight_sum(w) == 0 {
                (None, None, lines, g)
            } else {
                let g1 = spec_xorshift(g);
                let k = spec_weighted_pick(w, (g1 % (spec_weight_sum(w) as u64)) as nat)->0;
                let next = spec_push_drawn(lines, e[k as int], g1);
                (None, None, next.0, next.1)
            }
        }
    }
}

/// The legendary step of a Legendary drop: an authored unique that fits
/// the base wins (uniform pick; a pool unique also samples its index);
/// otherwise one procedural legendary-effect line (weighted pick).
/// Other rarities are untouched.
fn add_legendary(
    base: &BaseItem,
    rarity: Rarity,
    ilvl: u32,
    rng: &mut LootRng,
    lines: &mut Vec<PlannedLine>,
    used: &mut Vec<Stat>,
) -> (r: (Option<&'static str>, Option<u8>))
    requires
        spec_acc_ok(*base, old(lines)@, old(used)@),
    ensures
        spec_acc_ok(*base, final(lines)@, final(used)@),
        spec_legendary_ok(*base, rarity, r.0, r.1),
        old(lines)@.len() <= final(lines)@.len() <= old(lines)@.len() + 1,
        rarity != Rarity::Legendary || r.0 is Some ==> final(lines)@ == old(lines)@,
        rarity != Rarity::Legendary ==> final(rng).state() == old(rng).state(),
        final(lines)@.subrange(0, old(lines)@.len() as int) == old(lines)@,
        forall|i: int|
            old(lines)@.len() <= i < final(lines)@.len() ==> spec_is_plain(#[trigger] final(lines)@[i].def)
                && spec_is_legendary_effect(final(lines)@[i].def.effect),
        (r.0, r.1, final(lines)@, final(rng).state()) == spec_legendary_phase(
            *base,
            rarity,
            ilvl,
            old(lines)@,
            old(rng).state(),
        ),
{
    proof {
        assert(lines@.subrange(0, lines@.len() as int) =~= lines@);
    }
    if rarity != Rarity::Legendary {
        return (None, None);
    }
    let cands = candidates_for(base);
    let ghost cs = spec_uniques().filter(|u: UniqueDef| spec_unique_fits(u, *base));
    if cands.len() > 0 {
        let k = rng.range(0, cands.len() as u32) as usize;
        let def = cands[k];
        let mut pick: Option<u8> = None;
        if def.needs_pick() {
            let pl = def.pool_len();
            let len: u32 = if pl > 0 { pl as u32 } else { 1 };
            let p = rng.range(0, len);
            pick = Some(p as u8);
        }
        proof {
            assert(cs[k as int].id == def.id);
        }
        return (Some(def.id), pick);
    }
    let pool = affix_pool();
    proof {
        super::affixes::lemma_pool_prefixes();
        lemma_pool_weights();
    }
    let ghost epred = |a: AffixDef| spec_effect_ok(*base, ilvl, lines@, a);
    let mut effs: Vec<AffixDef> = Vec::new();
    let mut weights: Vec<u32> = Vec::new();
    let mut i: usize = 0;
    while i < pool.len()
        invariant
            pool@ == spec_affix_pool(),
            forall|k: int| 0 <= k < spec_affix_pool().len() ==> (#[trigger] spec_affix_pool()[k]).weight <= 100,
            forall|k: int| 0 <= k < spec_affix_pool().len() ==> !spec_is_resonance(#[trigger] spec_affix_pool()[k]),
            i <= pool@.len(),
            effs@.len() == weights@.len(),
            effs@.len() <= i,
            forall|k: int|
                0 <= k < effs@.len() ==> spec_affix_pool().contains(#[trigger] effs@[k])
                    && spec_effect_ok(*base, ilvl, lines@, effs@[k]) && weights@[k] == effs@[k].weight,
            forall|k: int| 0 <= k < weights@.len() ==> #[trigger] weights@[k] <= 100,
            epred == (|a: AffixDef| spec_effect_ok(*base, ilvl, lines@, a)),
            effs@ == pool@.take(i as int).filter(epred),
            weights@ == spec_effect_weights(effs@),
        decreases pool@.len() - i,
    {
        let a = pool[i];
        proof {
            assert(pool@.take(i + 1) =~= pool@.take(i as int).push(pool@[i as int]));
            lemma_filter_push(pool@.take(i as int), pool@[i as int], epred);
        }
        if is_legendary_effect(&a.effect) && a.tags & base.allowed_tags != 0 && a.min_ilvl <= ilvl
            && a.weight > 0 && !has_id(lines, a.id) {
            proof {
                assert(spec_affix_pool().contains(pool@[i as int]));
                assert(spec_effect_weights(effs@.push(a)) =~= spec_effect_weights(effs@).push(a.weight));
            }
            effs.push(a);
            weights.push(a.weight);
        }
        i = i + 1;
    }
    proof {
        assert(pool@.take(pool@.len() as int) =~= pool@);
    }
    if effs.len() == 0 {
        return (None, None);
    }
    proof {
        lemma_weight_sum_bound(weights@, 100);
        assert(100 * weights@.len() <= 100 * 27) by (nonlinear_arith)
            requires
                weights@.len() <= 27,
        ;
    }
    if let Some(k) = rng.weighted_index(&weights) {
        let def = effs[k];
        let m = draw_magnitude(&def, rng);
        let ghost old_lines = lines@;
        let ghost old_used = used@;
        proof {
            let w = choose|w: int| 0 <= w < spec_affix_pool().len() && spec_affix_pool()[w] == def;
            assert(!spec_is_resonance(spec_affix_pool()[w]));
        }
        push_line(lines, used, def, m);
        proof {
            lemma_push_keeps_ok(*base, old_lines, old_used, PlannedLine { def, magnitude: m }, used@);
            assert(lines@.subrange(0, old_lines.len() as int) =~= old_lines);
        }
    }
    (None, None)
}


/// The resonance chance bound of a rarity.
pub fn resonance_units(r: Rarity) -> (u: u32)
    ensures
        u == spec_resonance_units(r),
{
    match r {
        Rarity::Rare => RESONANCE_RARE_UNITS,
        Rarity::Legendary => RESONANCE_LEGENDARY_UNITS,
        _ => 0,
    }
}

/// The resonance filter: within item level and rarity, adding no used
/// stat, and targeting an axis the base's family rejects.
pub open spec fn spec_resonance_ok(base: BaseItem, rarity: Rarity, ilvl: u32, used: Seq<Stat>, a: AffixDef) -> bool {
    &&& a.min_ilvl <= ilvl
    &&& rarity.spec_at_least(a.rarity_min)
    &&& match spec_stat_of(a) {
        Some(s) => !used.contains(s),
        None => true,
    }
    &&& spec_cross_family(base, a)
}

/// The resonance filter over the lines so far, with the taken stats read
/// off the base and the lines.
pub open spec fn spec_resonance_pick_ok(base: BaseItem, rarity: Rarity, ilvl: u32, lines: Seq<PlannedLine>, a: AffixDef) -> bool {
    &&& a.min_ilvl <= ilvl
    &&& rarity.spec_at_least(a.rarity_min)
    &&& match spec_stat_of(a) {
        Some(s) => !spec_taken(base, lines, s),
        None => true,
    }
    &&& spec_cross_family(base, a)
}

/// The resonance candidates given the lines so far, in pool order.
pub open spec fn spec_resonance_candidates(base: BaseItem, rarity: Rarity, ilvl: u32, lines: Seq<PlannedLine>) -> Seq<
    AffixDef,
> {
    spec_resonance_pool().filter(|a: AffixDef| spec_resonance_pick_ok(base, rarity, ilvl, lines, a))
}

/// The resonance step of a roll from generator state `g`: rarities with
/// a resonance chance draw against it; on a hit, a uniform pick among
/// the candidates, appended with its magnitude.
pub open spec fn spec_resonance_phase(
    base: BaseItem,
    rarity: Rarity,
    ilvl: u32,
    lines: Seq<PlannedLine>,
    g: u64,
) -> (Seq<PlannedLine>, u64) {
    let units = spec_resonance_units(rarity);
    if units == 0 {
        (lines, g)
    } else {
        let g1 = spec_xorshift(g);
        if ((g1 >> 40u64) as u32) >= units {
            (lines, g1)
        } else {
            let c = spec_resonance_candidates(base, rarity, ilvl, lines);
            if c.len() == 0 {
                (lines, g1)
            } else {
                let g2 = spec_xorshift(g1);
                spec_push_drawn(lines, c[(g2 % (c.len() as u64)) as int], g2)
            }
        }
    }
}

/// The resonance step: with the rarity's chance (none for Common and
/// Magic, no draw either), one uniform pick among the resonance rows
/// that pass the filter.
fn add_resonance(
    base: &BaseItem,
    rarity: Rarity,
    ilvl: u32,
    rng: &mut LootRng,
    lines: &mut Vec<PlannedLine>,
    used: &mut Vec<Stat>,
)
    requires
        spec_acc_ok(*base, old(lines)@, old(used)@),
    ensures
        spec_acc_ok(*base, final(lines)@, final(used)@),
        old(lines)@.len() <= final(lines)@.len() <= old(lines)@.len() + 1,
        spec_resonance_units(rarity) == 0 ==> final(lines)@ == old(lines)@ && final(rng).state() == old(rng).state(),
        final(lines)@.subrange(0, old(lines)@.len() as int) == old(lines)@,
        forall|i: int|
            old(lines)@.len() <= i < final(lines)@.len() ==> spec_is_resonance(#[trigger] final(lines)@[i].def),
        (final(lines)@, final(rng).state()) == spec_resonance_phase(*base, rarity, ilvl, old(lines)@, old(rng).state()),
{
    proof {
        assert(lines@.subrange(0, lines@.len() as int) =~= lines@);
    }
    let units = resonance_units(rarity);
    if units == 0 {
        return;
    }
    let u = rng.next_unit_bits();
    if u >= units {
        return;
    }
    let pool = resonance_pool();
    proof {
        super::affixes::lemma_pool_prefixes();
    }
    let ghost rpred = |a: AffixDef| spec_resonance_pick_ok(*base, rarity, ilvl, lines@, a);
    let mut cands: Vec<AffixDef> = Vec::new();
    let mut i: usize = 0;
    while i < pool.len()
        invariant
            pool@ == spec_resonance_pool(),
            spec_acc_ok(*base, lines@, used@),
            rpred == (|a: AffixDef| spec_resonance_pick_ok(*base, rarity, ilvl, lines@, a)),
            cands@ == pool@.take(i as int).filter(rpred),
            forall|k: int| 0 <= k < spec_resonance_pool().len() ==> spec_is_resonance(#[trigger] spec_resonance_pool()[k]),
            i <= pool@.len(),
            cands@.len() <= i,
            forall|k: int|
                0 <= k < cands@.len() ==> spec_resonance_pool().contains(#[trigger] cands@[k])
                    && spec_resonance_ok(*base, rarity, ilvl, used@, cands@[k]),
        decreases pool@.len() - i,
    {
        let a = pool[i];
        proof {
            assert(spec_is_resonance(pool@[i as int]));
            assert(pool@.take(i + 1) =~= pool@.take(i as int).push(pool@[i as int]));
            lemma_filter_push(pool@.take(i as int), pool@[i as int], rpred);
            match spec_stat_of(a) {
                Some(t) => {
                    assert(used@.contains(t) <==> spec_taken(*base, lines@, t));
                },
                None => {},
            }
        }
        let mut keep = a.min_ilvl <= ilvl && rarity.at_least(a.rarity_min);
        if keep {
            match a.effect {
                AffixEffect::Stat(s) => {
                    if stat_used(used, s) {
                        keep = false;
                    }
                },
                _ => {},
            }
        }
        if keep {
            let mut cross = false;
            if let Some(e) = resonance_element(&a) {
                if !base.family.allows_element(e) {
                    cross = true;
                }
            }
            if !cross {
                if let Some(r) = resonance_archetype(&a) {
                    if !base.family.allows_archetype(r) {
                        cross = true;
                    }
                }
            }
            if !cross {
                if let Some(at) = resonance_attribute(&a) {
                    if !base.family.allows_attribute(at) {
                        cross = true;
                    }
                }
            }
            keep = cross;
        }
        if keep {
            proof {
                assert(spec_resonance_pool().contains(pool@[i as int]));
            }
            cands.push(a);
        }
        i = i + 1;
    }
    proof {
        assert(pool@.take(pool@.len() as int) =~= pool@);
    }
    if cands.len() == 0 {
        return;
    }
    let k = rng.range(0, cands.len() as u32) as usize;
    let def = cands[k];
    let m = draw_magnitude(&def, rng);
    let ghost old_lines = lines@;
    let ghost old_used = used@;
    proof {
        let w = choose|w: int| 0 <= w < spec_resonance_pool().len() && spec_resonance_pool()[w] == def;
        assert(spec_is_resonance(spec_resonance_pool()[w]));
    }
    push_line(lines, used, def, m);
    proof {
        lemma_push_keeps_ok(*base, old_lines, old_used, PlannedLine { def, magnitude: m }, used@);
        assert(lines@.subrange(0, old_lines.len() as int) =~= old_lines);
    }
}

/// A sequence whose elements pass `p` exactly on the index range
/// `[x, y)` keeps `y - x` of them under `filter(p)`.
proof fn lemma_filter_len_range<A>(s: Seq<A>, p: spec_fn(A) -> bool, x: int, y: int)
    requires
        0 <= x <= y <= s.len(),
        forall|i: int| 0 <= i < s.len() ==> (p(s[i]) <==> x <= i < y),
    ensures
        s.filter(p).len() == y - x,
    decreases s.len(),
{
    reveal(Seq::filter);
    if s.len() > 0 {
        let t = s.drop_last();
        assert forall|i: int| 0 <= i < t.len() implies t[i] == s[i] by {}
        if y == s.len() {
            if x < y {
                lemma_filter_len_range(t, p, x, y - 1);
            } else {
                lemma_filter_len_range(t, p, t.len() as int, t.len() as int);
            }
        } else {
            lemma_filter_len_range(t, p, x, y);
        }
    }
}

/// Number of attribute-axis lines (resonance excluded).
pub open spec fn spec_attr_count(lines: Seq<PlannedLine>) -> nat {
    lines.filter(|l: PlannedLine| spec_is_attr_line(l)).len()
}

/// Number of element-axis lines (resonance excluded).
pub open spec fn spec_elem_count(lines: Seq<PlannedLine>) -> nat {
    lines.filter(|l: PlannedLine| spec_is_elem_line(l)).len()
}

/// Number of archetype-axis lines (resonance excluded).
pub open spec fn spec_arch_count(lines: Seq<PlannedLine>) -> nat {
    lines.filter(|l: PlannedLine| spec_is_arch_line(l)).len()
}

/// The Magic axis step from generator state `g`: a coin draw picks the
/// element or the archetype axis; that axis's line is rolled, or the
/// other axis's when the chosen one has no candidate.
pub open spec fn spec_magic_axis_phase(base: BaseItem, ilvl: u32, lines: Seq<PlannedLine>, g: u64) -> (
    Seq<PlannedLine>,
    u64,
) {
    let g1 = spec_xorshift(g);
    let first = if g1 % 2 == 0 { AffixCategory::Element } else { AffixCategory::Archetype };
    let second = if g1 % 2 == 0 { AffixCategory::Archetype } else { AffixCategory::Element };
    if spec_axis_candidates(base, ilvl, first).len() > 0 {
        spec_axis_phase(base, ilvl, first, lines, g1)
    } else {
        spec_axis_phase(base, ilvl, second, lines, g1)
    }
}

/// The element and archetype steps of a roll: none for Common, one of
/// the two for Magic, both (element first) for Rare and Legendary.
pub open spec fn spec_damage_axes_phase(
    base: BaseItem,
    rarity: Rarity,
    ilvl: u32,
    lines: Seq<PlannedLine>,
    g: u64,
) -> (Seq<PlannedLine>, u64) {
    match rarity {
        Rarity::Common => (lines, g),
        Rarity::Magic => spec_magic_axis_phase(base, ilvl, lines, g),
        _ => {
            let e = spec_axis_phase(base, ilvl, AffixCategory::Element, lines, g);
            spec_axis_phase(base, ilvl, AffixCategory::Archetype, e.0, e.1)
        },
    }
}

/// `1` when the base has a candidate on axis `cat` at `ilvl`, else `0`.
pub open spec fn spec_has_axis(base: BaseItem, ilvl: u32, cat: AffixCategory) -> nat {
    if spec_axis_candidates(base, ilvl, cat).len() > 0 {
        1nat
    } else {
        0nat
    }
}

/// A pool row that passes the axis filter makes the axis non-empty.
proof fn lemma_axis_witness(base: BaseItem, ilvl: u32, cat: AffixCategory, k: int)
    requires
        0 <= k < spec_affix_pool().len(),
        spec_axis_ok(base, ilvl, cat, spec_affix_pool()[k]),
    ensures
        spec_has_axis(base, ilvl, cat) == 1,
{
    let p = |d: AffixDef| spec_axis_ok(base, ilvl, cat, d);
    spec_affix_pool().lemma_filter_contains(p, k);
    assert(spec_axis_candidates(base, ilvl, cat).contains(spec_affix_pool()[k]));
}

/// Every catalogue base has candidates on all three axes at every item
/// level from 1: its drops always get their attribute line, and the
/// element and archetype lines their rarity asks for.
pub proof fn lemma_catalogue_bases_fill_every_axis(i: int, ilvl: u32)
    requires
        0 <= i < BASE_ITEM_COUNT,
        ilvl >= 1,
    ensures
        spec_has_axis(spec_base_item(i), ilvl, AffixCategory::Attribute) == 1,
        spec_has_axis(spec_base_item(i), ilvl, AffixCategory::Element) == 1,
        spec_has_axis(spec_base_item(i), ilvl, AffixCategory::Archetype) == 1,
{
    broadcast use vstd::array::group_array_axioms;
    super::affixes::lemma_pool_prefixes();
    let b = spec_base_item(i);
    let pool = spec_affix_pool();
    let ka: int = match b.family.attribute {
        Some(super::families::Attribute::Agility) => 1,
        Some(super::families::Attribute::Intellect) => 2,
        _ => 0,
    };
    assert(spec_axis_ok(b, ilvl, AffixCategory::Attribute, pool[ka]));
    lemma_axis_witness(b, ilvl, AffixCategory::Attribute, ka);
    let ke: int = if b.family.spec_allows_element(super::families::Element::Physical) { 24 } else { 15 };
    assert(spec_axis_ok(b, ilvl, AffixCategory::Element, pool[ke]));
    lemma_axis_witness(b, ilvl, AffixCategory::Element, ke);
    let kr: int = if b.family.spec_allows_archetype(super::families::Archetype::Projectile) { 25 } else { 26 };
    assert(spec_axis_ok(b, ilvl, AffixCategory::Archetype, pool[kr]));
    lemma_axis_witness(b, ilvl, AffixCategory::Archetype, kr);
}

/// No catalogue base carries an attribute, element or archetype stat
/// among its implicits, so no stat repeats on any of their drops.
pub proof fn lemma_catalogue_implicits_axis_free(i: int)
    requires
        0 <= i < BASE_ITEM_COUNT,
    ensures
        spec_implicit_axis_free(spec_base_item(i)),
{
    broadcast use vstd::array::group_array_axioms;
    let b = spec_base_item(i);
    assert(b.implicit@.len() <= 2);
    assert forall|k: int| 0 <= k < b.implicit@.len() implies !(#[trigger] b.implicit@[k].0 == Stat::Strength
        || b.implicit@[k].0 == Stat::Agility || b.implicit@[k].0 == Stat::Intellect
        || b.implicit@[k].0 == Stat::PhysicalDamage || b.implicit@[k].0 == Stat::FireDamage
        || b.implicit@[k].0 == Stat::IceDamage || b.implicit@[k].0 == Stat::LightningDamage
        || b.implicit@[k].0 == Stat::ProjectileDamage || b.implicit@[k].0 == Stat::MeleeDamage) by {
        if k == 0 {
        } else {
        }
    }
}

/// Number of resonance lines.
pub open spec fn spec_res_count(lines: Seq<PlannedLine>) -> nat {
    lines.filter(|l: PlannedLine| spec_is_res_line(l)).len()
}

/// A whole roll of `base` at `rarity` and `ilvl` from generator state
/// `g`: the lines, the Anchored flag, the unique id and pick, and the
/// state after. The steps run in order, each from the state the one
/// before left: signature lines, the attribute line, the element and
/// archetype lines (none for Common, one of the two for Magic, both for
/// Rare and Legendary), bonus lines, the legendary step, the resonance
/// step, and for Legendaries the Anchored draw.
pub open spec fn spec_roll(base: BaseItem, rarity: Rarity, ilvl: u32, g: u64) -> (
    Seq<PlannedLine>,
    bool,
    Option<&'static str>,
    Option<u8>,
    u64,
) {
    let p0 = spec_signature_phase(base, spec_signature_for(base.equip_slot), g);
    let p1 = spec_axis_phase(base, ilvl, AffixCategory::Attribute, p0.0, p0.1);
    let p2 = spec_damage_axes_phase(base, rarity, ilvl, p1.0, p1.1);
    let p3 = spec_bonus_phase(base, rarity, ilvl, p2.0, p2.1);
    let p4 = spec_legendary_phase(base, rarity, ilvl, p3.0, p3.1);
    let p5 = spec_resonance_phase(base, rarity, ilvl, p4.2, p4.3);
    if rarity == Rarity::Legendary {
        let g6 = spec_xorshift(p5.1);
        (p5.0, ((g6 >> 40u64) as u32) < ANCHORED_UNITS, p4.0, p4.1, g6)
    } else {
        (p5.0, false, p4.0, p4.1, p5.1)
    }
}

/// The element and archetype lines of a drop (see
/// `spec_damage_axes_phase`). Returns where the element lines end: the
/// new lines before it are element lines, those from it archetype lines.
fn add_damage_axes(
    base: &BaseItem,
    rarity: Rarity,
    ilvl: u32,
    rng: &mut LootRng,
    lines: &mut Vec<PlannedLine>,
    used: &mut Vec<Stat>,
) -> (mid: Ghost<int>)
    requires
        spec_acc_ok(*base, old(lines)@, old(used)@),
        forall|i: int|
            0 <= i < old(lines)@.len() ==> spec_axis_none(AffixCategory::Element, #[trigger] old(lines)@[i].def)
                && spec_axis_none(AffixCategory::Archetype, old(lines)@[i].def),
    ensures
        spec_acc_ok(*base, final(lines)@, final(used)@),
        final(lines)@.subrange(0, old(lines)@.len() as int) == old(lines)@,
        old(lines)@.len() <= mid@ <= final(lines)@.len(),
        (final(lines)@, final(rng).state()) == spec_damage_axes_phase(*base, rarity, ilvl, old(lines)@, old(rng).state()),
        forall|i: int|
            old(lines)@.len() <= i < mid@ ==> spec_category(#[trigger] final(lines)@[i].def) == AffixCategory::Element
                && !spec_is_resonance(final(lines)@[i].def),
        forall|i: int|
            mid@ <= i < final(lines)@.len() ==> spec_category(#[trigger] final(lines)@[i].def) == AffixCategory::Archetype
                && !spec_is_resonance(final(lines)@[i].def),
        rarity == Rarity::Common ==> final(lines)@.len() == old(lines)@.len(),
        rarity == Rarity::Magic ==> final(lines)@.len() - old(lines)@.len() == (if spec_has_axis(*base, ilvl, AffixCategory::Element)
            + spec_has_axis(*base, ilvl, AffixCategory::Archetype) > 0 { 1int } else { 0int }),
        rarity == Rarity::Rare || rarity == Rarity::Legendary ==> mid@ - old(lines)@.len() == spec_has_axis(*base, ilvl, AffixCategory::Element)
            && final(lines)@.len() - mid@ == spec_has_axis(*base, ilvl, AffixCategory::Archetype),
{
    let ghost l1 = lines@;
    let ghost mut mid: int = l1.len() as int;
    match rarity {
        Rarity::Common => {
            proof {
                assert(lines@.subrange(0, l1.len() as int) =~= l1);
            }
        },
        Rarity::Magic => {
            let coin = rng.range(0, 2);
            let first = if coin == 0 { AffixCategory::Element } else { AffixCategory::Archetype };
            let second = if coin == 0 { AffixCategory::Archetype } else { AffixCategory::Element };
            let added = add_axis_line(base, ilvl, rng, first, &mut *lines, &mut *used);
            if !added {
                add_axis_line(base, ilvl, rng, second, &mut *lines, &mut *used);
            }
            proof {
                if lines@.len() > l1.len() && spec_category(lines@[l1.len() as int].def) == AffixCategory::Element {
                    mid = lines@.len() as int;
                }
            }
        },
        _ => {
            add_axis_line(base, ilvl, rng, AffixCategory::Element, &mut *lines, &mut *used);
            let ghost le = lines@;
            proof {
                assert forall|i: int| 0 <= i < lines@.len() implies spec_axis_none(AffixCategory::Archetype, #[trigger] lines@[i].def) by {
                    if i < l1.len() {
                        assert(lines@.subrange(0, l1.len() as int)[i] == l1[i]);
                    }
                }
            }
            add_axis_line(base, ilvl, rng, AffixCategory::Archetype, &mut *lines, &mut *used);
            proof {
                mid = le.len() as int;
                assert forall|i: int| l1.len() <= i < le.len() implies spec_category(#[trigger] lines@[i].def) == AffixCategory::Element
                    && !spec_is_resonance(lines@[i].def) by {
                    assert(lines@.subrange(0, le.len() as int)[i] == le[i]);
                }
                assert forall|i: int| 0 <= i < l1.len() implies lines@[i] == l1[i] by {
                    assert(lines@.subrange(0, le.len() as int)[i] == le[i]);
                    assert(le.subrange(0, l1.len() as int)[i] == l1[i]);
                }
                assert(lines@.subrange(0, l1.len() as int) =~= l1);
            }
        },
    }
    Ghost(mid)
}

impl Item {
    /// Roll a fresh drop of `base` at the given rarity and item level.
    ///
    /// Pipeline: the slot's signature lines; the attribute line (every
    /// rarity), then for Magic one of the element and archetype lines
    /// (a coin picks which; the other when the picked axis has no
    /// candidate) and for Rare and Legendary both, each a uniform pick
    /// among the family-allowed candidates; `rarity.affix_count_range()`
    /// bonus lines; for Legendaries an authored unique that fits the base
    /// or else one procedural legendary effect; for Rares (5 %) and
    /// Legendaries (25 %) one resonance line that breaks the family lock;
    /// and for Legendaries the Anchored trait (1 in 5 000).
    pub fn roll(base: &BaseItem, rarity: Rarity, ilvl: u32, rng: &mut LootRng) -> (plan: RollPlan)
        ensures
            plan.base == *base,
            plan.rarity == rarity,
            plan.ilvl == ilvl,
            (plan.lines@, plan.anchored, plan.unique_id, plan.unique_pick, final(rng).state()) == spec_roll(
                *base,
                rarity,
                ilvl,
                old(rng).state(),
            ),
            spec_lines_ok(*base, plan.lines@),
            spec_attr_count(plan.lines@) == (if spec_axis_candidates(*base, ilvl, AffixCategory::Attribute).len() > 0 {
                1nat
            } else {
                0nat
            }),
            rarity == Rarity::Common ==> spec_elem_count(plan.lines@) == 0 && spec_arch_count(plan.lines@) == 0,
            rarity == Rarity::Magic ==> spec_elem_count(plan.lines@) + spec_arch_count(plan.lines@) == (if spec_has_axis(
                *base,
                ilvl,
                AffixCategory::Element,
            ) + spec_has_axis(*base, ilvl, AffixCategory::Archetype) > 0 {
                1nat
            } else {
                0nat
            }),
            rarity == Rarity::Rare || rarity == Rarity::Legendary ==> spec_elem_count(plan.lines@) == spec_has_axis(
                *base,
                ilvl,
                AffixCategory::Element,
            ) && spec_arch_count(plan.lines@) == spec_has_axis(*base, ilvl, AffixCategory::Archetype),
            (exists|i: int| 0 <= i < BASE_ITEM_COUNT && spec_base_item(i) == *base) ==> spec_no_repeated_stat(
                *base,
                plan.lines@,
            ),
            (exists|i: int| 0 <= i < BASE_ITEM_COUNT && spec_base_item(i) == *base) && ilvl >= 1 ==> {
                &&& spec_attr_count(plan.lines@) == 1
                &&& rarity == Rarity::Common ==> spec_elem_count(plan.lines@) + spec_arch_count(plan.lines@) == 0
                &&& rarity == Rarity::Magic ==> spec_elem_count(plan.lines@) + spec_arch_count(plan.lines@) == 1
                &&& rarity == Rarity::Rare || rarity == Rarity::Legendary ==> spec_elem_count(plan.lines@) == 1
                    && spec_arch_count(plan.lines@) == 1
            },
            spec_res_count(plan.lines@) <= 1,
            rarity == Rarity::Common || rarity == Rarity::Magic ==> spec_res_count(plan.lines@) == 0,
            spec_legendary_ok(*base, rarity, plan.unique_id, plan.unique_pick),
            plan.anchored ==> rarity == Rarity::Legendary,
            spec_kept_signatures(*base, spec_signature_for(base.equip_slot)).len() <= plan.lines@.len(),
            forall|i: int|
                0 <= i < spec_kept_signatures(*base, spec_signature_for(base.equip_slot)).len() ==> (
                #[trigger] plan.lines@[i]).def == spec_kept_signatures(*base, spec_signature_for(base.equip_slot))[i],
            forall|i: int|
                spec_kept_signatures(*base, spec_signature_for(base.equip_slot)).len() <= i < plan.lines@.len()
                    && spec_category(#[trigger] plan.lines@[i].def) == AffixCategory::Bonus
                    && !spec_is_legendary_effect(plan.lines@[i].def.effect) ==> spec_bonus_gates(
                    *base,
                    rarity,
                    ilvl,
                    plan.lines@[i].def,
                ),
    {
        let mut lines: Vec<PlannedLine> = Vec::new();
        let mut used = implicit_stats(base);
        add_signature_lines(base, rng, &mut lines, &mut used);
        let ghost l0 = lines@;
        add_axis_line(base, ilvl, rng, AffixCategory::Attribute, &mut lines, &mut used);
        let ghost l1 = lines@;
        proof {
            assert forall|i: int| 0 <= i < lines@.len() implies spec_axis_none(AffixCategory::Element, #[trigger] lines@[i].def)
                && spec_axis_none(AffixCategory::Archetype, lines@[i].def) by {
                if i < l0.len() {
                    assert(lines@.subrange(0, l0.len() as int)[i] == l0[i]);
                }
            }
        }
        let ghost g1 = rng.state();
        let mid = add_damage_axes(base, rarity, ilvl, rng, &mut lines, &mut used);
        let ghost mid = mid@;
        let ghost l2 = lines@;
        add_bonus_lines(base, rarity, ilvl, rng, &mut lines, &mut used);
        let ghost l3 = lines@;
        let (unique_id, unique_pick) = add_legendary(base, rarity, ilvl, rng, &mut lines, &mut used);
        let ghost l4 = lines@;
        add_resonance(base, rarity, ilvl, rng, &mut lines, &mut used);
        let ghost l5 = lines@;
        let anchored = if rarity == Rarity::Legendary {
            let u = rng.next_unit_bits();
            u < ANCHORED_UNITS
        } else {
            false
        };
        proof {
            // Every earlier stage survives as a prefix of the final lines.
            assert forall|i: int| 0 <= i < l4.len() implies l5[i] == l4[i] by {
                assert(l5.subrange(0, l4.len() as int)[i] == l4[i]);
            }
            assert forall|i: int| 0 <= i < l3.len() implies l5[i] == l3[i] by {
                assert(l4.subrange(0, l3.len() as int)[i] == l3[i]);
            }
            assert forall|i: int| 0 <= i < l2.len() implies l5[i] == l2[i] by {
                assert(l3.subrange(0, l2.len() as int)[i] == l2[i]);
            }
            assert forall|i: int| 0 <= i < l1.len() implies l5[i] == l1[i] by {
                assert(l2.subrange(0, l1.len() as int)[i] == l1[i]);
            }
            assert forall|i: int| 0 <= i < l0.len() implies l5[i] == l0[i] by {
                assert(l1.subrange(0, l0.len() as int)[i] == l0[i]);
            }
            assert forall|i: int| 0 <= i < l0.len() implies l5[i].def == spec_line_defs(l0)[i] by {}
            let pa = |l: PlannedLine| spec_is_attr_line(l);
            let pe = |l: PlannedLine| spec_is_elem_line(l);
            let pq = |l: PlannedLine| spec_is_arch_line(l);
            let pr = |l: PlannedLine| spec_is_res_line(l);
            assert forall|i: int| 0 <= i < l5.len() implies (pa(l5[i]) <==> l0.len() <= i < l1.len()) by {
                if i < l0.len() {
                } else if i < l1.len() {
                } else if i < l2.len() {
                } else if i < l3.len() {
                } else if i < l4.len() {
                } else {
                }
            }
            lemma_filter_len_range(l5, pa, l0.len() as int, l1.len() as int);
            assert forall|i: int| 0 <= i < l5.len() implies (pe(l5[i]) <==> l1.len() <= i < mid) by {
                if i < l0.len() {
                } else if i < l1.len() {
                } else if i < mid {
                } else if i < l2.len() {
                } else if i < l3.len() {
                } else if i < l4.len() {
                } else {
                }
            }
            lemma_filter_len_range(l5, pe, l1.len() as int, mid);
            assert forall|i: int| 0 <= i < l5.len() implies (pq(l5[i]) <==> mid <= i < l2.len()) by {
                if i < l0.len() {
                } else if i < l1.len() {
                } else if i < mid {
                } else if i < l2.len() {
                } else if i < l3.len() {
                } else if i < l4.len() {
                } else {
                }
            }
            lemma_filter_len_range(l5, pq, mid, l2.len() as int);
            assert forall|i: int| 0 <= i < l5.len() implies (pr(l5[i]) <==> l4.len() <= i < l5.len()) by {
                if i < l0.len() {
                } else if i < l1.len() {
                } else if i < l2.len() {
                } else if i < l3.len() {
                } else if i < l4.len() {
                } else {
                }
            }
            lemma_filter_len_range(l5, pr, l4.len() as int, l5.len() as int);
            if exists|i: int| 0 <= i < BASE_ITEM_COUNT && spec_base_item(i) == *base {
                let i = choose|i: int| 0 <= i < BASE_ITEM_COUNT && spec_base_item(i) == *base;
                lemma_catalogue_implicits_axis_free(i);
                if ilvl >= 1 {
                    lemma_catalogue_bases_fill_every_axis(i, ilvl);
                }
            }
        }
        RollPlan {
            base: *base,
            rarity,
            ilvl,
            lines,
            anchored,
            unique_id,
            unique_pick,
        }
    }
}

impl RollPlan {
    /// The item this plan describes, given each line's magnitude as an
    /// `f32` bit pattern, in line order. The item is stable, has no
    /// provenance, no rift-touched line and no enchanted slot yet.
    pub fn into_item(self, values: Vec<u32>) -> (item: Item)
        requires
            values@.len() == self.lines@.len(),
        ensures
            item.base == self.base,
            item.rarity == self.rarity,
            item.ilvl == self.ilvl,
            item.affixes@.len() == self.lines@.len(),
            forall|i: int|
                0 <= i < self.lines@.len() ==> (#[trigger] item.affixes@[i]).def == self.lines@[i].def
                    && item.affixes@[i].value_bits == values@[i],
            item.anchored == self.anchored,
            !item.unstable,
            item.provenance is None,
            item.unique_id == self.unique_id,
            item.unique_pick == self.unique_pick,
            item.rift_touched is None,
            item.enchanted_affix_index is None,
    {
        let mut affixes: Vec<RolledAffix> = Vec::new();
        let mut i: usize = 0;
        while i < self.lines.len()
            invariant
                i <= self.lines@.len(),
                values@.len() == self.lines@.len(),
                affixes@.len() == i,
                forall|k: int|
                    0 <= k < i ==> (#[trigger] affixes@[k]).def == self.lines@[k].def && affixes@[k].value_bits
                        == values@[k],
            decreases self.lines@.len() - i,
        {
            affixes.push(RolledAffix { def: self.lines[i].def, value_bits: values[i] });
            i = i + 1;
        }
        Item {
            base: self.base,
            rarity: self.rarity,
            ilvl: self.ilvl,
            affixes,
            anchored: self.anchored,
            unstable: false,
            provenance: None,
            unique_id: self.unique_id,
            unique_pick: self.unique_pick,
            rift_touched: None,
            enchanted_affix_index: None,
        }
    }
}


/// The draws behind a rift-touched line. With `t` the unit fraction of
/// the magnitude draw, the magnitude is
/// `(lo + (hi - lo) * t) * (1 + depth_steps * 0.1)` over the row's
/// range (the low end when the range is a single value).
#[derive(Clone, Copy, Debug)]
pub struct RiftTouchedDraw {
    pub def: AffixDef,
    pub magnitude: Magnitude,
    /// Floors beyond the minimum rift-touched floor.
    pub depth_steps: u32,
    /// The kill's floor index, saturated to 16 bits.
    pub depth: u16,
}

/// Sample a rift-touched line for a kill at `floor_index`: `None`, with
/// no draw, below the minimum floor; otherwise a 20 % chance gate, then
/// a uniform row of the rift-touched pool and its magnitude draw.
pub fn roll_rift_touched(rng: &mut LootRng, floor_index: u32) -> (r: Option<RiftTouchedDraw>)
    ensures
        floor_index < RIFT_TOUCHED_MIN_FLOOR ==> r is None && final(rng).state() == old(rng).state(),
        floor_index >= RIFT_TOUCHED_MIN_FLOOR ==> ({
            let s1 = spec_xorshift(old(rng).state());
            let u = (s1 >> 40u64) as u32;
            &&& u >= RIFT_TOUCHED_UNITS ==> r is None && final(rng).state() == s1
            &&& u < RIFT_TOUCHED_UNITS ==> (r matches Some(d) && d.def == spec_rift_touched_pool()[(
                spec_xorshift(s1) % (spec_rift_touched_pool().len() as u64)) as int]
                && d.depth_steps == floor_index - RIFT_TOUCHED_MIN_FLOOR
                && d.depth == (if floor_index > 0xffff { 0xffffu16 } else { floor_index as u16 })
                && (d.def.roll.0 == d.def.roll.1 ==> d.magnitude == Magnitude::Fixed
                    && final(rng).state() == spec_xorshift(s1))
                && (d.def.roll.0 != d.def.roll.1 ==> d.magnitude == Magnitude::Drawn(
                    (spec_xorshift(spec_xorshift(s1)) >> 40u64) as u32,
                ) && final(rng).state() == spec_xorshift(spec_xorshift(s1))))
        }),
{
    if floor_index < RIFT_TOUCHED_MIN_FLOOR {
        return None;
    }
    let u = rng.next_unit_bits();
    if u >= RIFT_TOUCHED_UNITS {
        return None;
    }
    let pool = rift_touched_pool();
    let pick = rng.range(0, pool.len() as u32) as usize;
    let def = pool[pick];
    let magnitude = draw_magnitude(&def, rng);
    let depth: u16 = if floor_index > 0xffff { 0xffff } else { floor_index as u16 };
    Some(RiftTouchedDraw { def, magnitude, depth_steps: floor_index - RIFT_TOUCHED_MIN_FLOOR, depth })
}

} // verus!

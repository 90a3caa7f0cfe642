//! Anvil enchanting: rerolling one affix slot on an item.
//!
//! The first reroll locks the item to that slot; later rerolls may only
//! touch the same slot. The replacement is a weighted pick among the
//! pool rows that pass [`spec_compat`], whose gates are checked in a
//! fixed order so that a rejected row carries the first failing reason.

use vstd::prelude::*;
use vstd::string::StringSliceAdditionalSpecFns;

use crate::stats::Stat;
use super::affixes::{
    affix_archetype, affix_attribute, affix_element, affix_pool, category, is_legendary_effect,
    resonance_archetype, resonance_attribute, resonance_element, resonance_pool, spec_affix_archetype,
    spec_affix_attribute, spec_affix_element, spec_affix_pool,
    spec_category, spec_is_legendary_effect, spec_is_resonance, spec_resonance_pool, AffixCategory,
    AffixDef, AffixEffect,
};
use super::item::{Item, RolledAffix};
use super::items::{BaseItem, EquipSlot};
use super::rng::{spec_weight_sum, spec_weighted_pick, spec_xorshift, LootRng};
use super::roll::{draw_magnitude, spec_implicit_has, spec_stat_of, Magnitude};

verus! {

/// Why a reroll was refused.
#[derive(Clone, Copy, Debug, PartialEq, Eq, Structural)]
pub enum EnchantError {
    /// The slot index is past the item's affix list.
    InvalidAffixIndex,
    /// The item is already locked to another slot.
    LockedToDifferentAffix,
    /// Rift-touched slot, or no pool row may replace the slot.
    NoCandidate,
}

/// `s` is used by the implicits or by any affix but the one at `skip`.
pub open spec fn spec_used_excluding(item: Item, skip: int, s: Stat) -> bool {
    spec_implicit_has(item.base, s) || exists|i: int|
        0 <= i < item.affixes@.len() && i != skip && #[trigger] spec_stat_of(item.affixes@[i].def) == Some(s)
}

/// The stats used by the implicits and every affix but the one at `skip`.
fn used_stats_excluding(item: &Item, skip: usize) -> (r: Vec<Stat>)
    ensures
        forall|s: Stat| r@.contains(s) <==> spec_used_excluding(*item, skip as int, s),
{
    let mut used: Vec<Stat> = Vec::new();
    let mut k: usize = 0;
    while k < item.base.implicit.len()
        invariant
            k <= item.base.implicit@.len(),
            used@.len() == k,
            forall|j: int| 0 <= j < k ==> used@[j] == item.base.implicit@[j].0,
        decreases item.base.implicit@.len() - k,
    {
        used.push(item.base.implicit[k].0);
        k = k + 1;
    }
    let ghost n_imp = used@.len();
    let mut i: usize = 0;
    while i < item.affixes.len()
        invariant
            i <= item.affixes@.len(),
            n_imp == item.base.implicit@.len(),
            n_imp <= used@.len(),
            forall|j: int| 0 <= j < n_imp ==> used@[j] == item.base.implicit@[j].0,
            forall|j: int|
                #![trigger used@[j]]
                n_imp <= j < used@.len() ==> exists|a: int|
                    0 <= a < i && a != skip && #[trigger] spec_stat_of(item.affixes@[a].def) == Some(used@[j]),
            forall|a: int|
                0 <= a < i && a != skip && #[trigger] spec_stat_of(item.affixes@[a].def) is Some ==> used@.contains(
                    spec_stat_of(item.affixes@[a].def)->Some_0,
                ),
        decreases item.affixes@.len() - i,
    {
        if i != skip {
            match item.affixes[i].def.effect {
                AffixEffect::Stat(s) => {
                    let ghost before = used@;
                    used.push(s);
                    proof {
                        assert forall|j: int| #![trigger used@[j]] n_imp <= j < used@.len() implies exists|a: int|
                            0 <= a < i + 1 && a != skip && #[trigger] spec_stat_of(item.affixes@[a].def) == Some(used@[j]) by {
                            if j < before.len() {
                                let a = choose|a: int|
                                    0 <= a < i && a != skip && #[trigger] spec_stat_of(item.affixes@[a].def) == Some(before[j]);
                                assert(used@[j] == before[j]);
                            } else {
                                assert(spec_stat_of(item.affixes@[i as int].def) == Some(used@[j]));
                            }
                        }
                        assert forall|a: int|
                            0 <= a < i + 1 && a != skip && #[trigger] spec_stat_of(item.affixes@[a].def) is Some implies used@.contains(
                                spec_stat_of(item.affixes@[a].def)->Some_0) by {
                            if a < i {
                                let x = spec_stat_of(item.affixes@[a].def)->Some_0;
                                let w = choose|w: int| 0 <= w < before.len() && before[w] == x;
                                assert(used@[w] == x);
                            } else {
                                assert(used@[used@.len() - 1] == s);
                            }
                        }
                    }
                },
                _ => {},
            }
        }
        i = i + 1;
    }
    proof {
        assert forall|s: Stat| used@.contains(s) <==> spec_used_excluding(*item, skip as int, s) by {
            if used@.contains(s) {
                let j = choose|j: int| 0 <= j < used@.len() && used@[j] == s;
                if j < n_imp {
                    assert(item.base.implicit@[j].0 == s);
                } else {
                    let a = choose|a: int|
                        0 <= a < item.affixes@.len() && a != skip && #[trigger] spec_stat_of(item.affixes@[a].def) == Some(used@[j]);
                }
            }
            if spec_implicit_has(item.base, s) {
                let k = choose|k: int| 0 <= k < item.base.implicit@.len() && #[trigger] item.base.implicit@[k].0 == s;
                assert(used@[k] == s);
            }
            if exists|a: int|
                0 <= a < item.affixes@.len() && a != skip && #[trigger] spec_stat_of(item.affixes@[a].def) == Some(s) {
                let a = choose|a: int|
                    0 <= a < item.affixes@.len() && a != skip && #[trigger] spec_stat_of(item.affixes@[a].def) == Some(s);
                assert(spec_stat_of(item.affixes@[a].def) is Some);
            }
        }
    }
    used
}

/// The last affix index whose id is `id`.
pub open spec fn spec_last_index_of(affixes: Seq<RolledAffix>, id: Seq<char>) -> Option<int>
    decreases affixes.len(),
{
    if affixes.len() == 0 {
        None
    } else if affixes.last().def.id@ == id {
        Some(affixes.len() - 1)
    } else {
        spec_last_index_of(affixes.drop_last(), id)
    }
}

/// The glove crit signature lines `(crit chance, crit damage)`, found by
/// affix id (the last of each), on Hands items that carry both.
pub open spec fn spec_glove_pair(item: Item) -> Option<(int, int)> {
    if item.base.equip_slot != EquipSlot::Hands {
        None
    } else {
        match (
            spec_last_index_of(item.affixes@, "pct_crit_chance"@),
            spec_last_index_of(item.affixes@, "pct_crit_damage"@),
        ) {
            (Some(cc), Some(cd)) => Some((cc, cd)),
            _ => None,
        }
    }
}

/// The other line of the glove crit pair, when `skip` is one of them.
pub open spec fn spec_glove_sibling(item: Item, skip: int) -> Option<int> {
    match spec_glove_pair(item) {
        Some((cc, cd)) => if skip == cc {
            Some(cd)
        } else if skip == cd {
            Some(cc)
        } else {
            None
        },
        None => None,
    }
}

/// A found index lies inside the list and carries the id.
proof fn lemma_last_index_of(affixes: Seq<RolledAffix>, id: Seq<char>)
    ensures
        spec_last_index_of(affixes, id) matches Some(i) ==> 0 <= i < affixes.len() && affixes[i].def.id@ == id,
    decreases affixes.len(),
{
    if affixes.len() > 0 && affixes.last().def.id@ != id {
        lemma_last_index_of(affixes.drop_last(), id);
    }
}

/// Indices of the glove crit signature lines.
fn glove_crit_pair_indices(item: &Item) -> (r: Option<(usize, usize)>)
    ensures
        match r {
            Some((a, b)) => spec_glove_pair(*item) == Some((a as int, b as int)),
            None => spec_glove_pair(*item) is None,
        },
{
    if item.base.equip_slot != EquipSlot::Hands {
        return None;
    }
    let mut idx_chance: Option<usize> = None;
    let mut idx_damage: Option<usize> = None;
    let mut i: usize = 0;
    while i < item.affixes.len()
        invariant
            i <= item.affixes@.len(),
            match idx_chance {
                Some(a) => spec_last_index_of(item.affixes@.take(i as int), "pct_crit_chance"@) == Some(a as int),
                None => spec_last_index_of(item.affixes@.take(i as int), "pct_crit_chance"@) is None,
            },
            match idx_damage {
                Some(a) => spec_last_index_of(item.affixes@.take(i as int), "pct_crit_damage"@) == Some(a as int),
                None => spec_last_index_of(item.affixes@.take(i as int), "pct_crit_damage"@) is None,
            },
        decreases item.affixes@.len() - i,
    {
        proof {
            assert(item.affixes@.take(i + 1).drop_last() =~= item.affixes@.take(i as int));
        }
        if crate::text::str_eq(item.affixes[i].def.id, "pct_crit_chance") {
            idx_chance = Some(i);
        }
        if crate::text::str_eq(item.affixes[i].def.id, "pct_crit_damage") {
            idx_damage = Some(i);
        }
        i = i + 1;
    }
    proof {
        assert(item.affixes@.take(item.affixes@.len() as int) =~= item.affixes@);
    }
    match (idx_chance, idx_damage) {
        (Some(a), Some(b)) => Some((a, b)),
        _ => None,
    }
}

fn glove_crit_sibling_idx(item: &Item, skip: usize) -> (r: Option<usize>)
    ensures
        match r {
            Some(s) => spec_glove_sibling(*item, skip as int) == Some(s as int),
            None => spec_glove_sibling(*item, skip as int) is None,
        },
{
    match glove_crit_pair_indices(item) {
        Some((cc, cd)) => {
            if skip == cc {
                Some(cd)
            } else if skip == cd {
                Some(cc)
            } else {
                None
            }
        },
        None => None,
    }
}

/// `id` is one of the two glove crit signature ids.
pub open spec fn spec_is_crit_pair_id(id: Seq<char>) -> bool {
    id == "pct_crit_chance"@ || id == "pct_crit_damage"@
}

fn is_crit_pair_id(id: &str) -> (r: bool)
    ensures
        r == spec_is_crit_pair_id(id@),
{
    crate::text::str_eq(id, "pct_crit_chance") || crate::text::str_eq(id, "pct_crit_damage")
}

/// Rerolling the crit line at `skip` into the sibling's crit id is a
/// swap, not a duplicate: the sibling holds `candidate`'s id and no
/// other line (besides `skip`) does.
pub open spec fn spec_swap_candidate(item: Item, skip: int, candidate: AffixDef) -> bool {
    match spec_glove_sibling(item, skip) {
        Some(sib) => spec_is_crit_pair_id(candidate.id@) && 0 <= sib < item.affixes@.len()
            && item.affixes@[sib].def.id@ == candidate.id@ && (forall|i: int|
            0 <= i < item.affixes@.len() && i != skip && (#[trigger] item.affixes@[i]).def.id@ == candidate.id@
                ==> i == sib),
        None => false,
    }
}

fn gloves_crit_pair_swap_candidate(item: &Item, skip: usize, candidate: &AffixDef) -> (r: bool)
    ensures
        r == spec_swap_candidate(*item, skip as int, *candidate),
{
    let sib = match glove_crit_sibling_idx(item, skip) {
        Some(s) => s,
        None => return false,
    };
    if !is_crit_pair_id(candidate.id) {
        return false;
    }
    if sib >= item.affixes.len() {
        return false;
    }
    if !crate::text::str_eq(item.affixes[sib].def.id, candidate.id) {
        return false;
    }
    let mut i: usize = 0;
    while i < item.affixes.len()
        invariant
            i <= item.affixes@.len(),
            spec_glove_sibling(*item, skip as int) == Some(sib as int),
            forall|j: int|
                0 <= j < i && j != skip && (#[trigger] item.affixes@[j]).def.id@ == candidate.id@ ==> j == sib,
        decreases item.affixes@.len() - i,
    {
        if i != skip && i != sib && crate::text::str_eq(item.affixes[i].def.id, candidate.id) {
            assert(item.affixes@[i as int].def.id@ == candidate.id@);
            return false;
        }
        i = i + 1;
    }
    true
}

/// Bonus stat lines stay in their tooltip lane: offensive bonus stats
/// reroll among themselves, the others among themselves.
pub open spec fn spec_lane_compatible(current: AffixDef, candidate: AffixDef) -> bool {
    match (current.effect, candidate.effect) {
        (AffixEffect::Stat(a), AffixEffect::Stat(b)) => a.spec_is_offensive_bonus() == b.spec_is_offensive_bonus(),
        _ => true,
    }
}

fn bonus_stat_reroll_lane_compatible(current: &AffixDef, candidate: &AffixDef) -> (r: bool)
    ensures
        r == spec_lane_compatible(*current, *candidate),
{
    match (current.effect, candidate.effect) {
        (AffixEffect::Stat(a), AffixEffect::Stat(b)) => a.is_offensive_bonus() == b.is_offensive_bonus(),
        _ => true,
    }
}

/// Bonus rerolls follow the base's tags, or the current line's tags, or
/// stay within the offensive-bonus lane whatever the tags.
pub open spec fn spec_tags_allow(base: BaseItem, current: AffixDef, candidate: AffixDef) -> bool {
    candidate.tags & base.allowed_tags != 0 || candidate.tags & current.tags != 0 || match (
        current.effect,
        candidate.effect,
    ) {
        (AffixEffect::Stat(a), AffixEffect::Stat(b)) => a.spec_is_offensive_bonus() && b.spec_is_offensive_bonus(),
        _ => false,
    }
}

fn bonus_reroll_tags_allow(base: &BaseItem, current: &AffixDef, candidate: &AffixDef) -> (r: bool)
    ensures
        r == spec_tags_allow(*base, *current, *candidate),
{
    if candidate.tags & base.allowed_tags != 0 || candidate.tags & current.tags != 0 {
        return true;
    }
    match (current.effect, candidate.effect) {
        (AffixEffect::Stat(a), AffixEffect::Stat(b)) => a.is_offensive_bonus() && b.is_offensive_bonus(),
        _ => false,
    }
}

/// Two effects of the same kind (the kind only, not its target).
pub open spec fn spec_same_effect_type(a: AffixEffect, b: AffixEffect) -> bool {
    match (a, b) {
        (AffixEffect::Stat(_), AffixEffect::Stat(_)) => true,
        (AffixEffect::AmplifyAbilityDamage(_), AffixEffect::AmplifyAbilityDamage(_)) => true,
        (AffixEffect::ReduceAbilityCooldown(_), AffixEffect::ReduceAbilityCooldown(_)) => true,
        (AffixEffect::ExtraProjectiles(_), AffixEffect::ExtraProjectiles(_)) => true,
        (AffixEffect::TransformAbility(_, _), AffixEffect::TransformAbility(_, _)) => true,
        (AffixEffect::Proc(_, _), AffixEffect::Proc(_, _)) => true,
        _ => false,
    }
}

fn same_effect_type(a: AffixEffect, b: AffixEffect) -> (r: bool)
    ensures
        r == spec_same_effect_type(a, b),
{
    match (a, b) {
        (AffixEffect::Stat(_), AffixEffect::Stat(_)) => true,
        (AffixEffect::AmplifyAbilityDamage(_), AffixEffect::AmplifyAbilityDamage(_)) => true,
        (AffixEffect::ReduceAbilityCooldown(_), AffixEffect::ReduceAbilityCooldown(_)) => true,
        (AffixEffect::ExtraProjectiles(_), AffixEffect::ExtraProjectiles(_)) => true,
        (AffixEffect::TransformAbility(_, _), AffixEffect::TransformAbility(_, _)) => true,
        (AffixEffect::Proc(_, _), AffixEffect::Proc(_, _)) => true,
        _ => false,
    }
}

/// Another line than `skip` carries `id`.
pub open spec fn spec_dup_elsewhere(item: Item, skip: int, id: Seq<char>) -> bool {
    exists|i: int| 0 <= i < item.affixes@.len() && i != skip && (#[trigger] item.affixes@[i]).def.id@ == id
}

fn dup_elsewhere(item: &Item, skip: usize, id: &str) -> (r: bool)
    ensures
        r == spec_dup_elsewhere(*item, skip as int, id@),
{
    let mut i: usize = 0;
    while i < item.affixes.len()
        invariant
            i <= item.affixes@.len(),
            forall|j: int| 0 <= j < i && j != skip ==> (#[trigger] item.affixes@[j]).def.id@ != id@,
        decreases item.affixes@.len() - i,
    {
        if i != skip && crate::text::str_eq(item.affixes[i].def.id, id) {
            return true;
        }
        i = i + 1;
    }
    false
}

/// Whether `candidate` may replace the line at `skip` (whose def is
/// `current`, of category `cat`): `Ok` when allowed, otherwise the first
/// failing gate's reason. `used(s)` is whether stat `s` is used by the
/// implicits or another line.
pub open spec fn spec_compat(
    item: Item,
    skip: int,
    current: AffixDef,
    candidate: AffixDef,
    cat: AffixCategory,
) -> Result<(), &'static str> {
    let min_ilvl_ok = candidate.min_ilvl <= item.ilvl || (item.base.equip_slot == EquipSlot::Hands
        && spec_is_crit_pair_id(current.id@) && spec_is_crit_pair_id(candidate.id@));
    let swap = spec_swap_candidate(item, skip, candidate);
    if !min_ilvl_ok {
        Err("needs ilvl")
    } else if !item.rarity.spec_at_least(candidate.rarity_min) {
        Err("needs rarity")
    } else if spec_dup_elsewhere(item, skip, candidate.id@) && !swap {
        Err("duplicate line")
    } else if (match spec_stat_of(candidate) {
        Some(s) => spec_used_excluding(item, skip, s) && !swap,
        None => false,
    }) {
        Err("stat used")
    } else if !spec_same_effect_type(current.effect, candidate.effect) {
        Err("wrong effect family")
    } else {
        match cat {
            AffixCategory::Element => if !(spec_category(candidate) == AffixCategory::Element
                && spec_affix_element(candidate) is Some) {
                Err("not elemental %")
            } else {
                Ok(())
            },
            AffixCategory::Archetype => if !(spec_category(candidate) == cat && spec_affix_archetype(candidate) is Some) {
                Err("not archetype %")
            } else {
                Ok(())
            },
            AffixCategory::Attribute => if !(spec_category(candidate) == cat && spec_affix_attribute(candidate) is Some) {
                Err("not attribute")
            } else {
                Ok(())
            },
            AffixCategory::Bonus => if spec_category(candidate) != cat {
                Err("not bonus")
            } else if candidate.weight == 0 {
                Err("disabled affix")
            } else if !spec_tags_allow(item.base, current, candidate) {
                Err("tag mismatch")
            } else if spec_is_legendary_effect(candidate.effect) {
                Err("legendary only")
            } else if !spec_lane_compatible(current, candidate) {
                Err("bonus lane")
            } else {
                Ok(())
            },
            AffixCategory::Resonance => {
                let ok = spec_category(candidate) == cat && match spec_resonance_element_of(candidate) {
                    Some(e) => !item.base.family.spec_allows_element(e),
                    None => match spec_resonance_archetype_of(candidate) {
                        Some(r) => !item.base.family.spec_allows_archetype(r),
                        None => match spec_resonance_attribute_of(candidate) {
                            Some(a) => !item.base.family.spec_allows_attribute(a),
                            None => false,
                        },
                    },
                };
                if !ok {
                    Err("resonance rule")
                } else {
                    Ok(())
                }
            },
            AffixCategory::RiftTouched => Err("rift-touched"),
        }
    }
}

/// The element of a resonance line (`None` for other lines).
pub open spec fn spec_resonance_element_of(d: AffixDef) -> Option<super::families::Element> {
    if spec_is_resonance(d) {
        spec_affix_element(d)
    } else {
        None
    }
}

/// The archetype of a resonance line (`None` for other lines).
pub open spec fn spec_resonance_archetype_of(d: AffixDef) -> Option<super::families::Archetype> {
    if spec_is_resonance(d) {
        spec_affix_archetype(d)
    } else {
        None
    }
}

/// The attribute of a resonance line (`None` for other lines).
pub open spec fn spec_resonance_attribute_of(d: AffixDef) -> Option<super::families::Attribute> {
    if spec_is_resonance(d) {
        spec_affix_attribute(d)
    } else {
        None
    }
}

fn candidate_compatibility(
    item: &Item,
    skip: usize,
    current: &AffixDef,
    candidate: &AffixDef,
    cat: AffixCategory,
    used: &Vec<Stat>,
) -> (r: Result<(), &'static str>)
    requires
        forall|s: Stat| used@.contains(s) <==> spec_used_excluding(*item, skip as int, s),
    ensures
        r == spec_compat(*item, skip as int, *current, *candidate, cat),
{
    let min_ilvl_ok = candidate.min_ilvl <= item.ilvl || (item.base.equip_slot == EquipSlot::Hands
        && is_crit_pair_id(current.id) && is_crit_pair_id(candidate.id));
    if !min_ilvl_ok {
        return Err("needs ilvl");
    }
    if !item.rarity.at_least(candidate.rarity_min) {
        return Err("needs rarity");
    }
    let swap = gloves_crit_pair_swap_candidate(item, skip, candidate);
    if dup_elsewhere(item, skip, candidate.id) && !swap {
        return Err("duplicate line");
    }
    match candidate.effect {
        AffixEffect::Stat(s) => {
            let mut found = false;
            let mut k: usize = 0;
            while k < used.len()
                invariant
                    k <= used@.len(),
                    found == exists|j: int| 0 <= j < k && used@[j] == s,
                decreases used@.len() - k,
            {
                if used[k] == s {
                    found = true;
                }
                k = k + 1;
            }
            if found && !swap {
                return Err("stat used");
            }
        },
        _ => {},
    }
    if !same_effect_type(current.effect, candidate.effect) {
        return Err("wrong effect family");
    }
    match cat {
        AffixCategory::Element => {
            if !(category(candidate) == AffixCategory::Element && affix_element(candidate).is_some()) {
                return Err("not elemental %");
            }
        },
        AffixCategory::Archetype => {
            if !(category(candidate) == cat && affix_archetype(candidate).is_some()) {
                return Err("not archetype %");
            }
        },
        AffixCategory::Attribute => {
            if !(category(candidate) == cat && affix_attribute(candidate).is_some()) {
                return Err("not attribute");
            }
        },
        AffixCategory::Bonus => {
            if category(candidate) != cat {
                return Err("not bonus");
            }
            if candidate.weight == 0 {
                return Err("disabled affix");
            }
            if !bonus_reroll_tags_allow(&item.base, current, candidate) {
                return Err("tag mismatch");
            }
            if is_legendary_effect(&candidate.effect) {
                return Err("legendary only");
            }
            if !bonus_stat_reroll_lane_compatible(current, candidate) {
                return Err("bonus lane");
            }
        },
        AffixCategory::Resonance => {
            let ok = category(candidate) == cat && match resonance_element(candidate) {
                Some(e) => !item.base.family.allows_element(e),
                None => match resonance_archetype(candidate) {
                    Some(r) => !item.base.family.allows_archetype(r),
                    None => match resonance_attribute(candidate) {
                        Some(a) => !item.base.family.allows_attribute(a),
                        None => false,
                    },
                },
            };
            if !ok {
                return Err("resonance rule");
            }
        },
        AffixCategory::RiftTouched => {
            return Err("rift-touched");
        },
    }
    Ok(())
}


/// Why rerolling slot `idx` is refused outright, if it is: the index is
/// out of range, the item is locked to another slot, or the slot is a
/// rift-touched line.
pub open spec fn spec_reroll_gate(item: Item, idx: u8) -> Option<EnchantError> {
    if idx as int >= item.affixes@.len() {
        Some(EnchantError::InvalidAffixIndex)
    } else if (match item.enchanted_affix_index {
        Some(l) => l != idx,
        None => false,
    }) {
        Some(EnchantError::LockedToDifferentAffix)
    } else if spec_category(item.affixes@[idx as int].def) == AffixCategory::RiftTouched {
        Some(EnchantError::NoCandidate)
    } else {
        None
    }
}

/// The pool a slot rerolls from: the resonance pool for resonance
/// lines, the main pool otherwise.
pub open spec fn spec_reroll_pool(item: Item, idx: u8) -> Seq<AffixDef> {
    if spec_category(item.affixes@[idx as int].def) == AffixCategory::Resonance {
        spec_resonance_pool()
    } else {
        spec_affix_pool()
    }
}

/// Whether pool row `d` may replace slot `idx`.
pub open spec fn spec_allowed(item: Item, idx: u8, d: AffixDef) -> bool {
    let current = item.affixes@[idx as int].def;
    spec_compat(item, idx as int, current, d, spec_category(current)) is Ok
}

/// The rows that may replace slot `idx`, in pool order.
pub open spec fn spec_reroll_candidates(item: Item, idx: u8) -> Seq<AffixDef> {
    spec_reroll_pool(item, idx).filter(|d: AffixDef| spec_allowed(item, idx, d))
}

/// A reroll never adds a stat the item already carries: every stat
/// candidate's stat is neither one of the base's implicit stats nor the
/// stat of another affix line, unless the candidate is the glove
/// crit-pair swap.
pub proof fn lemma_reroll_candidates_add_no_used_stat(item: Item, idx: u8, k: int, s: Stat)
    requires
        0 <= k < spec_reroll_candidates(item, idx).len(),
        spec_reroll_candidates(item, idx)[k].effect == AffixEffect::Stat(s),
    ensures
        spec_swap_candidate(item, idx as int, spec_reroll_candidates(item, idx)[k]) || ({
            &&& forall|j: int| 0 <= j < item.base.implicit@.len() ==> (#[trigger] item.base.implicit@[j]).0 != s
            &&& forall|j: int|
                0 <= j < item.affixes@.len() && j != idx ==> (#[trigger] item.affixes@[j]).def.effect
                    != AffixEffect::Stat(s)
        }),
{
    let d = spec_reroll_candidates(item, idx)[k];
    spec_reroll_pool(item, idx).lemma_filter_pred(|d: AffixDef| spec_allowed(item, idx, d), k);
    assert(spec_allowed(item, idx, d));
    if !spec_swap_candidate(item, idx as int, d) {
        assert(!spec_used_excluding(item, idx as int, s));
        assert forall|j: int| 0 <= j < item.base.implicit@.len() implies (#[trigger] item.base.implicit@[j]).0 != s by {
            if item.base.implicit@[j].0 == s {
                assert(spec_implicit_has(item.base, s));
            }
        }
        assert forall|j: int|
            0 <= j < item.affixes@.len() && j != idx implies (#[trigger] item.affixes@[j]).def.effect
                != AffixEffect::Stat(s) by {
            if item.affixes@[j].def.effect == AffixEffect::Stat(s) {
                assert(spec_stat_of(item.affixes@[j].def) == Some(s));
            }
        }
    }
}

/// The rows that may not replace slot `idx`, each with its first failing
/// gate, in pool order.
pub open spec fn spec_reroll_excluded(item: Item, idx: u8) -> Seq<(AffixDef, &'static str)> {
    let current = item.affixes@[idx as int].def;
    spec_reroll_pool(item, idx).filter_map(
        |d: AffixDef|
            match spec_compat(item, idx as int, current, d, spec_category(current)) {
                Ok(_) => None,
                Err(reason) => Some((d, reason)),
            },
    )
}

fn reroll_pool(item: &Item, affix_index: u8) -> (r: &'static [AffixDef])
    requires
        (affix_index as int) < item.affixes@.len(),
    ensures
        r@ == spec_reroll_pool(*item, affix_index),
{
    if category(&item.affixes[affix_index as usize].def) == AffixCategory::Resonance {
        resonance_pool()
    } else {
        affix_pool()
    }
}

fn reroll_gate(item: &Item, affix_index: u8) -> (r: Option<EnchantError>)
    ensures
        r == spec_reroll_gate(*item, affix_index),
{
    let idx = affix_index as usize;
    if idx >= item.affixes.len() {
        return Some(EnchantError::InvalidAffixIndex);
    }
    if let Some(locked) = item.enchanted_affix_index {
        if locked != affix_index {
            return Some(EnchantError::LockedToDifferentAffix);
        }
    }
    if category(&item.affixes[idx].def) == AffixCategory::RiftTouched {
        return Some(EnchantError::NoCandidate);
    }
    None
}

/// The pool rows that may replace slot `affix_index`, or why the slot
/// cannot be rerolled at all.
pub fn reroll_candidates(item: &Item, affix_index: u8) -> (r: Result<Vec<AffixDef>, EnchantError>)
    ensures
        match spec_reroll_gate(*item, affix_index) {
            Some(e) => r == Err::<Vec<AffixDef>, EnchantError>(e),
            None => r matches Ok(v) && v@ == spec_reroll_candidates(*item, affix_index),
        },
{
    if let Some(e) = reroll_gate(item, affix_index) {
        return Err(e);
    }
    let idx = affix_index as usize;
    let current = item.affixes[idx].def;
    let cat = category(&current);
    let used = used_stats_excluding(item, idx);
    let pool = reroll_pool(item, affix_index);
    let ghost pred = |d: AffixDef| spec_allowed(*item, affix_index, d);
    let mut out: Vec<AffixDef> = Vec::new();
    let mut i: usize = 0;
    while i < pool.len()
        invariant
            idx == affix_index as usize,
            idx < item.affixes@.len(),
            current == item.affixes@[idx as int].def,
            cat == spec_category(current),
            forall|s: Stat| used@.contains(s) <==> spec_used_excluding(*item, idx as int, s),
            pool@ == spec_reroll_pool(*item, affix_index),
            pred == (|d: AffixDef| spec_allowed(*item, affix_index, d)),
            i <= pool@.len(),
            out@ == pool@.take(i as int).filter(pred),
        decreases pool@.len() - i,
    {
        proof {
            reveal(Seq::filter);
            assert(pool@.take(i + 1).drop_last() =~= pool@.take(i as int));
        }
        if candidate_compatibility(item, idx, &current, &pool[i], cat, &used).is_ok() {
            out.push(pool[i]);
        }
        i = i + 1;
    }
    proof {
        assert(pool@.take(pool@.len() as int) =~= pool@);
    }
    Ok(out)
}

/// The pool rows that may not replace slot `affix_index`, each with the
/// first gate that rejects it, or why the slot cannot be rerolled.
pub fn reroll_excluded(item: &Item, affix_index: u8) -> (r: Result<Vec<(AffixDef, &'static str)>, EnchantError>)
    ensures
        match spec_reroll_gate(*item, affix_index) {
            Some(e) => r == Err::<Vec<(AffixDef, &'static str)>, EnchantError>(e),
            None => r matches Ok(v) && v@ == spec_reroll_excluded(*item, affix_index),
        },
{
    if let Some(e) = reroll_gate(item, affix_index) {
        return Err(e);
    }
    let idx = affix_index as usize;
    let current = item.affixes[idx].def;
    let cat = category(&current);
    let used = used_stats_excluding(item, idx);
    let pool = reroll_pool(item, affix_index);
    let ghost f = |d: AffixDef|
        match spec_compat(*item, idx as int, current, d, cat) {
            Ok(_) => None,
            Err(reason) => Some((d, reason)),
        };
    let mut out: Vec<(AffixDef, &'static str)> = Vec::new();
    let mut i: usize = 0;
    while i < pool.len()
        invariant
            idx == affix_index as usize,
            idx < item.affixes@.len(),
            current == item.affixes@[idx as int].def,
            cat == spec_category(current),
            forall|s: Stat| used@.contains(s) <==> spec_used_excluding(*item, idx as int, s),
            pool@ == spec_reroll_pool(*item, affix_index),
            f == (|d: AffixDef|
                match spec_compat(*item, idx as int, current, d, cat) {
                    Ok(_) => None,
                    Err(reason) => Some((d, reason)),
                }),
            i <= pool@.len(),
            out@ == pool@.take(i as int).filter_map(f),
        decreases pool@.len() - i,
    {
        proof {
            assert(pool@.take(i + 1).drop_last() =~= pool@.take(i as int));
        }
        match candidate_compatibility(item, idx, &current, &pool[i], cat, &used) {
            Ok(_) => {},
            Err(reason) => {
                out.push((pool[i], reason));
                proof {
                    assert(out@ =~= pool@.take(i as int).filter_map(f) + seq![(pool@[i as int], reason)]);
                }
            },
        }
        i = i + 1;
    }
    proof {
        assert(pool@.take(pool@.len() as int) =~= pool@);
    }
    Ok(out)
}

/// Filtering by `p` and keeping the `None`-free results of `f`, where
/// `f` is `Some` exactly off `p`, splits a sequence in two.
proof fn lemma_filter_partition<A, B>(s: Seq<A>, p: spec_fn(A) -> bool, f: spec_fn(A) -> Option<B>)
    requires
        forall|x: A| #[trigger] f(x) is Some <==> !p(x),
    ensures
        s.filter(p).len() + s.filter_map(f).len() == s.len(),
    decreases s.len(),
{
    reveal(Seq::filter);
    if s.len() > 0 {
        lemma_filter_partition(s.drop_last(), p, f);
        assert(f(s.last()) is Some <==> !p(s.last()));
    }
}

/// Every row of a slot's reroll pool is either a candidate or an
/// excluded row with a reason: the two lists together are as long as
/// the pool.
pub proof fn lemma_reroll_pool_partition(item: Item, affix_index: u8)
    requires
        spec_reroll_gate(item, affix_index) is None,
    ensures
        spec_reroll_candidates(item, affix_index).len() + spec_reroll_excluded(item, affix_index).len()
            == spec_reroll_pool(item, affix_index).len(),
{
    let current = item.affixes@[affix_index as int].def;
    let p = |d: AffixDef| spec_allowed(item, affix_index, d);
    let f = |d: AffixDef|
        match spec_compat(item, affix_index as int, current, d, spec_category(current)) {
            Ok(_) => None,
            Err(reason) => Some((d, reason)),
        };
    lemma_filter_partition(spec_reroll_pool(item, affix_index), p, f);
}


/// Little-endian bytes of `x`, `n` of them.
pub open spec fn spec_le_bytes(x: nat, n: nat) -> Seq<u8>
    decreases n,
{
    if n == 0 {
        seq![]
    } else {
        seq![(x % 256) as u8] + spec_le_bytes(x / 256, (n - 1) as nat)
    }
}

/// An optional byte: `0`, or `1` then the byte.
pub open spec fn spec_opt_bytes(o: Option<u8>) -> Seq<u8> {
    match o {
        None => seq![0u8],
        Some(b) => seq![1u8, b],
    }
}

/// A flag as a byte.
pub open spec fn spec_flag(b: bool) -> u8 {
    if b {
        1
    } else {
        0
    }
}

/// Each affix as its id's UTF-8 bytes, a zero, and its value bits.
pub open spec fn spec_affix_bytes(affixes: Seq<RolledAffix>) -> Seq<u8>
    decreases affixes.len(),
{
    if affixes.len() == 0 {
        seq![]
    } else {
        spec_affix_bytes(affixes.drop_last()) + affixes.last().def.id.spec_bytes() + seq![0u8]
            + spec_le_bytes(affixes.last().value_bits as nat, 4)
    }
}

/// The byte snapshot a reroll seed is hashed from: tick, player,
/// source coordinates and slot, then the whole item.
pub open spec fn spec_entropy_bytes(
    tick: u32,
    player_key: u64,
    source_tag: u8,
    source_detail: u32,
    affix_index: u8,
    item: Item,
) -> Seq<u8> {
    let head = (spec_le_bytes(tick as nat, 4) + spec_le_bytes(player_key as nat, 8)).push(source_tag);
    let coords = (head + spec_le_bytes(source_detail as nat, 4)).push(affix_index);
    let base = (coords + item.base.id.spec_bytes()).push(0u8).push(item.rarity.spec_rank());
    let flags = (base + spec_le_bytes(item.ilvl as nat, 4)).push(spec_flag(item.anchored)).push(
        spec_flag(item.unstable),
    );
    let opts = flags + spec_opt_bytes(item.enchanted_affix_index) + spec_opt_bytes(item.unique_pick);
    let uid = match item.unique_id {
        Some(u) => (opts + u.spec_bytes()).push(0u8),
        None => opts,
    };
    uid + spec_affix_bytes(item.affixes@)
}

pub const FNV_OFFSET_BASIS: u64 = 14695981039346656037;

pub const FNV_PRIME: u64 = 1099511628211;

/// 64-bit FNV-1a over a byte sequence.
pub open spec fn spec_fnv1a64(data: Seq<u8>) -> u64
    decreases data.len(),
{
    if data.len() == 0 {
        FNV_OFFSET_BASIS
    } else {
        let h = spec_fnv1a64(data.drop_last()) ^ (data.last() as u64);
        ((h as nat * FNV_PRIME as nat) % 0x1_0000_0000_0000_0000) as u64
    }
}

fn fnv1a64(data: &Vec<u8>) -> (r: u64)
    ensures
        r == spec_fnv1a64(data@),
{
    let mut hash: u64 = FNV_OFFSET_BASIS;
    let mut i: usize = 0;
    while i < data.len()
        invariant
            i <= data@.len(),
            hash == spec_fnv1a64(data@.take(i as int)),
        decreases data@.len() - i,
    {
        proof {
            assert(data@.take(i + 1).drop_last() =~= data@.take(i as int));
        }
        hash = (hash ^ (data[i] as u64)).wrapping_mul(FNV_PRIME);
        i = i + 1;
    }
    proof {
        assert(data@.take(data@.len() as int) =~= data@);
    }
    hash
}

/// Append the `n` little-endian bytes of `x`.
fn push_le(buf: &mut Vec<u8>, x: u64, n: usize)
    requires
        n <= 8,
    ensures
        final(buf)@ == old(buf)@ + spec_le_bytes(x as nat, n as nat),
    decreases n,
{
    if n == 0 {
        assert(old(buf)@ + spec_le_bytes(x as nat, 0) =~= old(buf)@);
        return;
    }
    buf.push((x % 256) as u8);
    push_le(buf, x / 256, n - 1);
    assert(final(buf)@ =~= old(buf)@ + spec_le_bytes(x as nat, n as nat));
}

/// Append the UTF-8 bytes of `s`.
fn push_str(buf: &mut Vec<u8>, s: &str)
    ensures
        final(buf)@ == old(buf)@ + s.spec_bytes(),
{
    let bytes = s.as_bytes();
    let ghost start = buf@;
    let mut i: usize = 0;
    while i < bytes.len()
        invariant
            i <= bytes@.len(),
            bytes@ == s.spec_bytes(),
            buf@ == start + bytes@.take(i as int),
        decreases bytes@.len() - i,
    {
        buf.push(bytes[i]);
        proof {
            assert(bytes@.take(i + 1) =~= bytes@.take(i as int).push(bytes@[i as int]));
            assert(buf@ =~= start + bytes@.take(i + 1));
        }
        i = i + 1;
    }
    proof {
        assert(bytes@.take(bytes@.len() as int) =~= bytes@);
    }
}

fn push_opt(buf: &mut Vec<u8>, o: Option<u8>)
    ensures
        final(buf)@ == old(buf)@ + spec_opt_bytes(o),
{
    match o {
        None => buf.push(0),
        Some(b) => {
            buf.push(1);
            buf.push(b);
        },
    }
    assert(final(buf)@ =~= old(buf)@ + spec_opt_bytes(o));
}

/// Stable entropy for a reroll: FNV-1a over the sim tick, player id,
/// enchant source (`source_tag` 0 = bag with `source_detail` the bag
/// index, 1 = equipped with the equip-slot byte), the slot index, and a
/// snapshot of the whole item, so two rerolls on the same tick never
/// share an RNG stream.
pub fn reroll_entropy_seed(
    tick: u32,
    player_key: u64,
    source_tag: u8,
    source_detail: u32,
    affix_index: u8,
    item: &Item,
) -> (r: u64)
    ensures
        r == spec_fnv1a64(spec_entropy_bytes(tick, player_key, source_tag, source_detail, affix_index, *item)),
{
    let mut buf: Vec<u8> = Vec::new();
    push_le(&mut buf, tick as u64, 4);
    proof {
        assert(buf@ =~= spec_le_bytes(tick as nat, 4));
    }
    push_le(&mut buf, player_key, 8);
    buf.push(source_tag);
    push_le(&mut buf, source_detail as u64, 4);
    buf.push(affix_index);
    push_str(&mut buf, item.base.id);
    buf.push(0);
    buf.push(item.rarity.rank());
    push_le(&mut buf, item.ilvl as u64, 4);
    buf.push(if item.anchored { 1 } else { 0 });
    buf.push(if item.unstable { 1 } else { 0 });
    push_opt(&mut buf, item.enchanted_affix_index);
    push_opt(&mut buf, item.unique_pick);
    if let Some(uid) = item.unique_id {
        push_str(&mut buf, uid);
        buf.push(0);
    }
    let ghost mid = buf@;
    let mut i: usize = 0;
    proof {
        assert(mid + spec_affix_bytes(item.affixes@.take(0)) =~= mid);
    }
    while i < item.affixes.len()
        invariant
            i <= item.affixes@.len(),
            buf@ == mid + spec_affix_bytes(item.affixes@.take(i as int)),
        decreases item.affixes@.len() - i,
    {
        push_str(&mut buf, item.affixes[i].def.id);
        buf.push(0);
        push_le(&mut buf, item.affixes[i].value_bits as u64, 4);
        proof {
            let t = item.affixes@.take(i + 1);
            assert(t.drop_last() =~= item.affixes@.take(i as int));
            assert(t.last() == item.affixes@[i as int]);
            assert(buf@ =~= mid + spec_affix_bytes(t));
        }
        i = i + 1;
    }
    proof {
        assert(item.affixes@.take(item.affixes@.len() as int) =~= item.affixes@);
    }
    fnv1a64(&buf)
}


/// Every resonance-pool weight is at most 100.
proof fn lemma_resonance_weights()
    ensures
        forall|k: int| 0 <= k < spec_resonance_pool().len() ==> (#[trigger] spec_resonance_pool()[k]).weight <= 100,
{
}

/// Every main-pool weight is at most 100.
proof fn lemma_main_weights()
    ensures
        forall|k: int| 0 <= k < spec_affix_pool().len() ==> (#[trigger] spec_affix_pool()[k]).weight <= 100,
{
}

/// A candidate's reroll weight: its weight (at least 1), doubled when it
/// carries one of the base's favoured tags.
pub open spec fn spec_reroll_weight(base: BaseItem, d: AffixDef) -> u32 {
    let w: u32 = if d.weight > 1 { d.weight } else { 1 };
    if d.tags & base.favored_tags != 0 {
        if w as int * 2 > u32::MAX as int {
            u32::MAX
        } else {
            (w * 2) as u32
        }
    } else {
        w
    }
}

/// The weights of a slot's candidates, in candidate order.
pub open spec fn spec_reroll_weights(item: Item, idx: u8) -> Seq<u32> {
    spec_reroll_candidates(item, idx).map_values(|d: AffixDef| spec_reroll_weight(item.base, d))
}

/// The magnitude a line's draw gives from generator state `s`.
pub open spec fn spec_draw(def: AffixDef, s: u64) -> Magnitude {
    if def.roll.0 == def.roll.1 {
        Magnitude::Fixed
    } else {
        Magnitude::Drawn((spec_xorshift(s) >> 40u64) as u32)
    }
}

/// The generator state after a line's magnitude draw from state `s`.
pub open spec fn spec_after_draw(def: AffixDef, s: u64) -> u64 {
    if def.roll.0 == def.roll.1 {
        s
    } else {
        spec_xorshift(s)
    }
}

/// Rolling the glove crit line at `idx` into the stat its sibling holds
/// swaps the two lines instead of duplicating the stat.
pub open spec fn spec_swap_applies(item: Item, idx: int, def: AffixDef) -> bool {
    match spec_glove_sibling(item, idx) {
        Some(sib) => 0 <= sib < item.affixes@.len() && match (def.effect, item.affixes@[sib].def.effect) {
            (AffixEffect::Stat(a), AffixEffect::Stat(b)) => a == b && (a == Stat::CritChance || a
                == Stat::CritDamage),
            _ => false,
        },
        None => false,
    }
}

/// A decided reroll: the slot, its new line and magnitude draw, and for
/// a glove crit swap the sibling slot with the magnitude draw of the
/// line moved onto it. With `t` the unit fraction of a draw, a magnitude
/// is `lo + (hi - lo) * t` over the line's range at the item's level,
/// and `lo` itself for a single-valued range.
#[derive(Clone, Copy, Debug)]
pub struct RerollPlan {
    pub index: u8,
    pub def: AffixDef,
    pub magnitude: Magnitude,
    pub swap: Option<(usize, Magnitude)>,
}

/// Decide a reroll of slot `affix_index`: refused as [`spec_reroll_gate`]
/// says, or with `NoCandidate` when nothing may replace the slot;
/// otherwise a weighted pick among the candidates, its magnitude draw,
/// and the glove crit swap when it applies.
pub fn plan_reroll(item: &Item, affix_index: u8, rng: &mut LootRng) -> (r: Result<RerollPlan, EnchantError>)
    ensures
        match spec_reroll_gate(*item, affix_index) {
            Some(e) => r == Err::<RerollPlan, EnchantError>(e) && final(rng).state() == old(rng).state(),
            None => {
                let c = spec_reroll_candidates(*item, affix_index);
                let w = spec_reroll_weights(*item, affix_index);
                let s1 = spec_xorshift(old(rng).state());
                &&& c.len() == 0 ==> r == Err::<RerollPlan, EnchantError>(EnchantError::NoCandidate)
                    && final(rng).state() == old(rng).state()
                &&& c.len() > 0 ==> (r matches Ok(p) && p.index == affix_index && (exists|k: nat|
                    spec_weighted_pick(w, (s1 % (spec_weight_sum(w) as u64)) as nat) == Some(k) && k < c.len()
                        && p.def == c[k as int]) && p.magnitude == spec_draw(p.def, s1) && (if spec_swap_applies(
                    *item,
                    affix_index as int,
                    p.def,
                ) {
                    let sib = spec_glove_sibling(*item, affix_index as int)->Some_0;
                    let cur = item.affixes@[affix_index as int].def;
                    p.swap == Some((sib as usize, spec_draw(cur, spec_after_draw(p.def, s1))))
                        && final(rng).state() == spec_after_draw(cur, spec_after_draw(p.def, s1))
                } else {
                    p.swap is None && final(rng).state() == spec_after_draw(p.def, s1)
                }))
            },
        },
{
    let cands = match reroll_candidates(item, affix_index) {
        Ok(c) => c,
        Err(e) => return Err(e),
    };
    if cands.len() == 0 {
        return Err(EnchantError::NoCandidate);
    }
    let idx = affix_index as usize;
    let ghost c = spec_reroll_candidates(*item, affix_index);
    proof {
        lemma_resonance_weights();
        lemma_main_weights();
        assert forall|k: int| 0 <= k < c.len() implies (#[trigger] c[k]).weight <= 100 by {
            let pool = spec_reroll_pool(*item, affix_index);
            lemma_filter_member_of(pool, |d: AffixDef| spec_allowed(*item, affix_index, d), k);
            let j = choose|j: int| 0 <= j < pool.len() && pool[j] == c[k];
        }
        assert(c.len() <= spec_reroll_pool(*item, affix_index).len()) by {
            spec_reroll_pool(*item, affix_index).lemma_filter_len(|d: AffixDef| spec_allowed(*item, affix_index, d));
        }
    }
    let mut weights: Vec<u32> = Vec::new();
    let mut i: usize = 0;
    while i < cands.len()
        invariant
            cands@ == c,
            forall|k: int| 0 <= k < c.len() ==> (#[trigger] c[k]).weight <= 100,
            i <= cands@.len(),
            weights@ == c.take(i as int).map_values(|d: AffixDef| spec_reroll_weight(item.base, d)),
        decreases cands@.len() - i,
    {
        let d = cands[i];
        let mut w: u32 = if d.weight > 1 { d.weight } else { 1 };
        if d.tags & item.base.favored_tags != 0 {
            w = if w > u32::MAX / 2 { u32::MAX } else { w * 2 };
        }
        weights.push(w);
        proof {
            assert(c.take(i + 1).map_values(|d: AffixDef| spec_reroll_weight(item.base, d)) =~= c.take(
                i as int,
            ).map_values(|d: AffixDef| spec_reroll_weight(item.base, d)).push(spec_reroll_weight(item.base, d)));
        }
        i = i + 1;
    }
    proof {
        assert(c.take(c.len() as int) =~= c);
        assert forall|k: int| 0 <= k < weights@.len() implies #[trigger] weights@[k] <= 200 && weights@[k] >= 1 by {}
        lemma_weight_sum_at_most(weights@, 200);
        lemma_weight_sum_positive(weights@);
        assert(200 * weights@.len() <= 200 * 36) by (nonlinear_arith)
            requires
                weights@.len() <= 36,
        ;
    }
    let pick = match rng.weighted_index(&weights) {
        Some(k) => k,
        None => rng.range(0, cands.len() as u32) as usize,
    };
    let def = cands[pick];
    let magnitude = draw_magnitude(&def, rng);
    let mut swap: Option<(usize, Magnitude)> = None;
    if let Some(sib) = glove_crit_sibling_idx(item, idx) {
        if sib < item.affixes.len() {
            match (def.effect, item.affixes[sib].def.effect) {
                (AffixEffect::Stat(new_st), AffixEffect::Stat(sib_st)) => {
                    if new_st == sib_st && (new_st == Stat::CritChance || new_st == Stat::CritDamage) {
                        let cur = item.affixes[idx].def;
                        let m2 = draw_magnitude(&cur, rng);
                        swap = Some((sib, m2));
                    }
                },
                _ => {},
            }
        }
    }
    Ok(RerollPlan { index: affix_index, def, magnitude, swap })
}

/// Members of a filtered sequence come from the unfiltered sequence.
proof fn lemma_filter_member_of<A>(s: Seq<A>, p: spec_fn(A) -> bool, i: int)
    requires
        0 <= i < s.filter(p).len(),
    ensures
        s.contains(s.filter(p)[i]),
{
    assert(s.filter(p).contains(s.filter(p)[i]));
    s.lemma_filter_contains_rev(p, s.filter(p)[i]);
}

/// A weight list with entries at most `b` sums to at most `b * len`.
proof fn lemma_weight_sum_at_most(w: Seq<u32>, b: nat)
    requires
        forall|i: int| 0 <= i < w.len() ==> w[i] <= b,
    ensures
        spec_weight_sum(w) <= b * w.len(),
    decreases w.len(),
{
    if w.len() > 0 {
        assert forall|i: int| 0 <= i < w.drop_first().len() implies w.drop_first()[i] <= b by {
            assert(w.drop_first()[i] == w[i + 1]);
        }
        lemma_weight_sum_at_most(w.drop_first(), b);
        assert(b * w.len() == b * w.drop_first().len() + b) by (nonlinear_arith)
            requires
                w.len() == w.drop_first().len() + 1,
        ;
    }
}

/// A non-empty weight list of positive entries has a positive sum.
proof fn lemma_weight_sum_positive(w: Seq<u32>)
    requires
        w.len() > 0,
        forall|i: int| 0 <= i < w.len() ==> w[i] >= 1,
    ensures
        spec_weight_sum(w) > 0,
{
}

/// Carry out a decided reroll with the new line's magnitude (and, for a
/// swap, the moved line's magnitude) as `f32` bit patterns: the slot gets
/// the new line; on a swap the sibling slot gets the slot's old line with
/// the fresh magnitude; the item is locked to the slot.
pub fn apply_reroll(item: &mut Item, plan: &RerollPlan, value_bits: u32, sibling_value_bits: u32)
    requires
        (plan.index as int) < old(item).affixes@.len(),
        plan.swap matches Some((sib, _)) ==> sib < old(item).affixes@.len(),
    ensures
        final(item).affixes@ == (match plan.swap {
            None => old(item).affixes@.update(plan.index as int, RolledAffix { def: plan.def, value_bits }),
            Some((sib, _)) => old(item).affixes@.update(
                plan.index as int,
                RolledAffix { def: plan.def, value_bits },
            ).update(
                sib as int,
                RolledAffix { def: old(item).affixes@[plan.index as int].def, value_bits: sibling_value_bits },
            ),
        }),
        final(item).enchanted_affix_index == Some(plan.index),
        final(item).base == old(item).base,
        final(item).rarity == old(item).rarity,
        final(item).ilvl == old(item).ilvl,
        final(item).anchored == old(item).anchored,
        final(item).unstable == old(item).unstable,
        final(item).provenance == old(item).provenance,
        final(item).unique_id == old(item).unique_id,
        final(item).unique_pick == old(item).unique_pick,
        final(item).rift_touched == old(item).rift_touched,
{
    let idx = plan.index as usize;
    let old_def = item.affixes[idx].def;
    item.affixes.set(idx, RolledAffix { def: plan.def, value_bits });
    if let Some((sib, _)) = plan.swap {
        item.affixes.set(sib, RolledAffix { def: old_def, value_bits: sibling_value_bits });
    }
    item.enchanted_affix_index = Some(plan.index);
}

/// Once an item is locked to slot `i`, every other slot in range is
/// refused as locked.
pub proof fn lemma_locked_item_refuses_other_slots(item: Item, i: u8, j: u8)
    requires
        item.enchanted_affix_index == Some(i),
        j != i,
        (j as int) < item.affixes@.len(),
    ensures
        spec_reroll_gate(item, j) == Some(EnchantError::LockedToDifferentAffix),
{
}

} // verus!

use rift_game::loot::affixes::{
    affix_archetype, affix_attribute, affix_element, affix_pool, is_resonance, lookup,
    resonance_archetype, resonance_attribute, resonance_element, resonance_pool, signature_count,
    AffixDef, AffixEffect,
};
use rift_game::loot::item::{Item, RolledAffix};
use rift_game::loot::items::{base_item, BaseItem, BASE_ITEM_COUNT};
use rift_game::loot::rarity::Rarity;
use rift_game::loot::rng::LootRng;
use rift_game::loot::roll::{roll_rift_touched, Magnitude, RollPlan};
use rift_game::stats::Stat;

/// The `f32` magnitude of a freshly rolled line.
fn magnitude_value(def: &AffixDef, ilvl: u32, m: Magnitude) -> f32 {
    let lo0 = def.roll.0 as f32 / 1000.0;
    let hi0 = def.roll.1 as f32 / 1000.0;
    match m {
        Magnitude::Fixed => lo0,
        Magnitude::Drawn(u) => {
            let scale = ilvl.saturating_sub(1) as f32 * (def.ilvl_scale as f32 / 1000.0);
            let lo = lo0 + scale;
            let hi = hi0 + scale;
            lo + (hi - lo) * (u as f32 / (1u32 << 24) as f32)
        }
    }
}

fn finish(plan: RollPlan) -> Item {
    let values: Vec<u32> = plan
        .lines
        .iter()
        .map(|l| magnitude_value(&l.def, plan.ilvl, l.magnitude).to_bits())
        .collect();
    plan.into_item(values)
}

fn roll(base: &BaseItem, rarity: Rarity, ilvl: u32, rng: &mut LootRng) -> Item {
    finish(Item::roll(base, rarity, ilvl, rng))
}

fn base(id: &str) -> BaseItem {
    (0..BASE_ITEM_COUNT)
        .map(base_item)
        .find(|b| b.id == id)
        .unwrap_or_else(|| panic!("base item `{id}` missing from the catalogue"))
}

fn bare(b: BaseItem, rarity: Rarity, ilvl: u32, affixes: Vec<RolledAffix>) -> Item {
    Item {
        base: b,
        rarity,
        ilvl,
        affixes,
        anchored: false,
        provenance: None,
        unstable: false,
        unique_id: None,
        unique_pick: None,
        rift_touched: None,
        enchanted_affix_index: None,
    }
}

const RARITIES: [Rarity; 4] = [Rarity::Common, Rarity::Magic, Rarity::Rare, Rarity::Legendary];

fn for_every_roll(seeds: u64, mut check: impl FnMut(&Item)) {
    for i in 0..BASE_ITEM_COUNT {
        let b = base_item(i);
        for r in RARITIES {
            for seed in 0..seeds {
                let mut rng = LootRng::new(
                    (b.id.len() as u64)
                        .wrapping_mul(0x9E37_79B9_7F4A_7C15)
                        .wrapping_add((r.rank() as u64).wrapping_mul(0xBF58_476D_1CE4_E5B9))
                        .wrapping_add(seed),
                );
                let it = roll(&b, r, b.min_ilvl.max(1), &mut rng);
                check(&it);
            }
        }
    }
}

#[test]
fn frange_inclusive_formula_hits_hi_at_max_unit() {
    const MASK: u64 = (1u64 << 24) - 1;
    let t_max = MASK as f32 / MASK as f32;
    assert!((t_max - 1.0).abs() < 1e-6);
    let lo = 10.0f32;
    let hi = 20.0f32;
    let at_max = lo + (hi - lo) * t_max;
    assert!((at_max - hi).abs() < 1e-4);
}

#[test]
fn required_level_floors_at_one_for_ilvl_zero() {
    let item = bare(base("staff_basic"), Rarity::Common, 0, Vec::new());
    assert_eq!(item.required_level(), 1);
}

#[test]
fn required_level_tracks_item_level_when_affixes_are_low_tier() {
    let item = bare(base("staff_basic"), Rarity::Common, 30, Vec::new());
    assert_eq!(item.required_level(), 30);
}

#[test]
fn required_level_uses_highest_affix_min_ilvl_when_above_ilvl() {
    let pool = affix_pool();
    let a_low = *pool.iter().find(|a| a.min_ilvl == 1).expect("a min_ilvl=1 entry");
    let a_high = *pool
        .iter()
        .filter(|a| a.min_ilvl > 1)
        .max_by_key(|a| a.min_ilvl)
        .expect("a min_ilvl>1 entry");
    let item = bare(
        base("staff_basic"),
        Rarity::Rare,
        1,
        vec![RolledAffix { def: a_low, value_bits: 0.0f32.to_bits() }, RolledAffix { def: a_high, value_bits: 0.0f32.to_bits() }],
    );
    assert_eq!(item.required_level(), a_high.min_ilvl.max(1));
}

#[test]
fn required_level_takes_max_of_ilvl_and_affix_terms() {
    let pool = affix_pool();
    let a_low = *pool.iter().find(|a| a.min_ilvl <= 20).expect("a min_ilvl<=20 entry");
    let item_a = bare(base("staff_basic"), Rarity::Common, 20, vec![RolledAffix { def: a_low, value_bits: 0 }]);
    assert_eq!(item_a.required_level(), 20);
    if let Some(high) = pool.iter().find(|a| a.min_ilvl > 20) {
        let item_b = bare(base("staff_basic"), Rarity::Common, 20, vec![RolledAffix { def: *high, value_bits: 0 }]);
        assert_eq!(item_b.required_level(), high.min_ilvl);
    }
}

#[test]
fn required_level_for_rolled_item_never_exceeds_max_of_ilvl_and_pool_max() {
    let pool_max = affix_pool().iter().map(|a| a.min_ilvl).max().unwrap_or(0);
    let mut rng = LootRng::new(0xDEAD_BEEF_CAFE);
    let item = roll(&base("staff_basic"), Rarity::Legendary, 25, &mut rng);
    let req = item.required_level();
    assert!(req <= 25u32.max(pool_max), "req={req} exceeds bound max(25, pool_max={pool_max})");
    assert!(req >= 1);
}

#[test]
fn every_base_rolls_at_every_rarity() {
    for i in 0..BASE_ITEM_COUNT {
        let b = base_item(i);
        for r in RARITIES {
            for seed in 0..8u64 {
                let mut rng = LootRng::new(
                    (b.id.len() as u64)
                        .wrapping_mul(0x9E37_79B9_7F4A_7C15)
                        .wrapping_add((r.rank() as u64).wrapping_mul(0xBF58_476D_1CE4_E5B9))
                        .wrapping_add(seed),
                );
                let it = roll(&b, r, b.min_ilvl.max(1), &mut rng);
                let sig = signature_count(b.equip_slot);
                assert!(
                    it.affixes.len() >= sig,
                    "base `{}` rarity {:?}: rolled {} affixes, expected at least {} signature lines",
                    b.id,
                    r,
                    it.affixes.len(),
                    sig,
                );
                for a in &it.affixes {
                    assert!(lookup(a.def.id).is_some(), "base `{}` rolled affix id `{}` that does not resolve", b.id, a.def.id);
                }
            }
        }
    }
}

#[test]
fn axis_lines_respect_family_lock() {
    for_every_roll(16, |it| {
        for a in &it.affixes {
            if is_resonance(&a.def) {
                continue;
            }
            if let Some(e) = affix_element(&a.def) {
                assert!(it.base.family.allows_element(e), "base `{}` rolled out-of-family element line `{}`", it.base.id, a.def.id);
            }
            if let Some(ar) = affix_archetype(&a.def) {
                assert!(it.base.family.allows_archetype(ar), "base `{}` rolled out-of-family archetype line `{}`", it.base.id, a.def.id);
            }
            if let Some(at) = affix_attribute(&a.def) {
                assert!(it.base.family.allows_attribute(at), "base `{}` rolled out-of-family attribute line `{}`", it.base.id, a.def.id);
            }
        }
    });
}

#[test]
fn no_stat_appears_twice() {
    for_every_roll(16, |it| {
        let mut seen: std::collections::HashSet<Stat> = Default::default();
        for a in &it.affixes {
            if let AffixEffect::Stat(s) = a.def.effect {
                assert!(seen.insert(s), "base `{}` rolled stat {:?} twice", it.base.id, s);
            }
        }
    });
}

#[test]
fn rarity_gates_trio_shape() {
    for_every_roll(16, |it| {
        let mut elements = 0;
        let mut archetypes = 0;
        let mut attributes = 0;
        for a in &it.affixes {
            if is_resonance(&a.def) {
                continue;
            }
            if affix_element(&a.def).is_some() {
                elements += 1;
            }
            if affix_archetype(&a.def).is_some() {
                archetypes += 1;
            }
            if affix_attribute(&a.def).is_some() {
                attributes += 1;
            }
        }
        match it.rarity {
            Rarity::Common => {
                assert_eq!(attributes, 1, "base `{}` Common: expected 1 attribute line, got {}", it.base.id, attributes);
                assert_eq!(
                    elements + archetypes,
                    0,
                    "base `{}` Common: expected 0 element/archetype lines, got {}+{}",
                    it.base.id,
                    elements,
                    archetypes
                );
            }
            Rarity::Magic => {
                assert_eq!(attributes, 1, "base `{}` Magic: expected 1 attribute line, got {}", it.base.id, attributes);
                assert_eq!(
                    elements + archetypes,
                    1,
                    "base `{}` Magic: expected exactly one of element/archetype, got {}+{}",
                    it.base.id,
                    elements,
                    archetypes
                );
            }
            Rarity::Rare | Rarity::Legendary => {
                assert_eq!(attributes, 1, "base `{}` {:?}: expected 1 Attribute line, got {}", it.base.id, it.rarity, attributes);
                assert_eq!(elements, 1, "base `{}` {:?}: expected 1 Element line, got {}", it.base.id, it.rarity, elements);
                assert_eq!(archetypes, 1, "base `{}` {:?}: expected 1 Archetype line, got {}", it.base.id, it.rarity, archetypes);
            }
        }
    });
}

#[test]
fn resonance_lines_are_always_cross_family() {
    for_every_roll(64, |it| {
        for a in &it.affixes {
            if !is_resonance(&a.def) {
                continue;
            }
            let cross = resonance_element(&a.def).map(|e| !it.base.family.allows_element(e)).unwrap_or(false)
                || resonance_archetype(&a.def).map(|ar| !it.base.family.allows_archetype(ar)).unwrap_or(false)
                || resonance_attribute(&a.def).map(|at| !it.base.family.allows_attribute(at)).unwrap_or(false);
            assert!(cross, "base `{}` rolled in-family resonance line `{}`", it.base.id, a.def.id);
        }
    });
}

#[test]
fn at_most_one_resonance_line_per_item() {
    for_every_roll(64, |it| {
        let count = it.affixes.iter().filter(|a| is_resonance(&a.def)).count();
        assert!(count <= 1, "base `{}` rolled {} resonance lines (max 1)", it.base.id, count);
    });
}

#[test]
fn common_and_magic_never_resonate() {
    for_every_roll(64, |it| {
        if matches!(it.rarity, Rarity::Common | Rarity::Magic) {
            let any = it.affixes.iter().any(|a| is_resonance(&a.def));
            assert!(!any, "base `{}` rarity {:?} resonated", it.base.id, it.rarity);
        }
    });
}

#[test]
fn every_resonance_id_resolves() {
    for def in resonance_pool() {
        assert!(lookup(def.id).is_some(), "resonance id `{}` does not resolve through `lookup`", def.id);
    }
}

#[test]
fn rolling_is_deterministic_for_a_seed() {
    let b = base("staff_basic");
    let a = roll(&b, Rarity::Legendary, 20, &mut LootRng::new(99));
    let c = roll(&b, Rarity::Legendary, 20, &mut LootRng::new(99));
    assert_eq!(a.affixes.len(), c.affixes.len());
    for (x, y) in a.affixes.iter().zip(c.affixes.iter()) {
        assert_eq!(x.def.id, y.def.id);
        assert_eq!(x.value_bits, y.value_bits);
    }
    assert_eq!(a.unique_id, c.unique_id);
}

#[test]
fn anchored_only_on_legendaries_and_rare_even_then() {
    let mut anchored = 0;
    for seed in 0..2000u64 {
        let s = (seed + 1).wrapping_mul(0x9E37_79B9_7F4A_7C15);
        let mut rng = LootRng::new(s);
        let it = roll(&base("ring_basic"), Rarity::Rare, 10, &mut rng);
        assert!(!it.anchored);
        let mut rng = LootRng::new(s);
        let it = roll(&base("ring_basic"), Rarity::Legendary, 10, &mut rng);
        if it.anchored {
            anchored += 1;
        }
    }
    assert!(anchored < 10, "anchored {} of 2000 legendaries", anchored);
}

#[test]
fn legendary_helm_rolls_the_authored_unique() {
    let it = roll(&base("light_helm"), Rarity::Legendary, 10, &mut LootRng::new(5));
    assert_eq!(it.unique_id, Some("embercrown"));
    assert_eq!(it.unique_pick, None);
}

#[test]
fn legendary_amulet_samples_a_mirrorglass_pick() {
    for seed in 1..50u64 {
        let it = roll(&base("amulet_basic"), Rarity::Legendary, 10, &mut LootRng::new(seed));
        assert_eq!(it.unique_id, Some("mirrorglass_amulet"));
        let p = it.unique_pick.expect("pool unique samples an index");
        assert!(p < 3);
    }
}

#[test]
fn fresh_rolls_are_stable_and_unprovenanced() {
    let it = roll(&base("staff_basic"), Rarity::Rare, 5, &mut LootRng::new(3));
    assert!(!it.unstable);
    assert!(it.provenance.is_none());
    assert!(it.rift_touched.is_none());
    assert!(it.enchanted_affix_index.is_none());
}

#[test]
fn rift_touched_needs_a_rift_floor() {
    let mut rng = LootRng::new(42);
    assert!(roll_rift_touched(&mut rng, 0).is_none());
    let mut hits = 0;
    for seed in 1..1000u64 {
        let mut rng = LootRng::new(seed.wrapping_mul(0x9E37_79B9_7F4A_7C15));
        if let Some(d) = roll_rift_touched(&mut rng, 7) {
            hits += 1;
            assert_eq!(d.depth, 7);
            assert_eq!(d.depth_steps, 6);
            assert!(d.def.id.starts_with("rt_"));
        }
    }
    assert!(hits > 100 && hits < 300, "hits = {hits}");
}

#[test]
fn fixed_magnitudes_take_no_draw() {
    // A single-valued range takes its low end without advancing the generator.
    let fixed = *affix_pool().iter().find(|d| d.roll.0 == d.roll.1).expect("a fixed-range row");
    assert_eq!(magnitude_value(&fixed, 30, Magnitude::Fixed), fixed.roll.0 as f32 / 1000.0);
    let strength = lookup("flat_strength").unwrap();
    let v = magnitude_value(&strength, 3, Magnitude::Drawn(0));
    assert!((v - 5.2).abs() < 1e-5);
}

#[test]
fn rolls_open_with_the_slot_signatures_not_already_implicit() {
    for seed in 0..16u64 {
        let mut rng = LootRng::new(seed.wrapping_mul(0x9E37_79B9_7F4A_7C15) | 1);
        let helm = roll(&base("light_helm"), Rarity::Rare, 20, &mut rng);
        assert_eq!(helm.affixes[0].def.id, "pct_cooldown");
        let gloves = roll(&base("light_gloves"), Rarity::Magic, 20, &mut rng);
        assert_eq!(gloves.affixes[0].def.id, "pct_crit_chance");
        assert_eq!(gloves.affixes[1].def.id, "pct_crit_damage");
        // The chest's implicit Health already covers its signature line.
        let chest = roll(&base("heavy_chest"), Rarity::Common, 20, &mut rng);
        assert!(chest.affixes.iter().all(|a| a.def.id != "flat_health"));
    }
}

#[test]
fn a_roll_seeded_the_same_way_replays_the_same() {
    for seed in 1..12u64 {
        let s = seed.wrapping_mul(0x9E37_79B9_7F4A_7C15);
        for id in ["staff_basic", "light_helm", "light_gloves", "ring_basic"] {
            let b = base(id);
            let mut r1 = LootRng::new(s);
            let mut r2 = LootRng::new(s);
            let a = Item::roll(&b, Rarity::Legendary, 30, &mut r1);
            let c = Item::roll(&b, Rarity::Legendary, 30, &mut r2);
            assert_eq!(a.lines.len(), c.lines.len());
            for (x, y) in a.lines.iter().zip(c.lines.iter()) {
                assert_eq!(x.def.id, y.def.id);
                assert_eq!(x.magnitude, y.magnitude);
            }
            assert_eq!(a.unique_id, c.unique_id);
            assert_eq!(a.unique_pick, c.unique_pick);
            assert_eq!(a.anchored, c.anchored);
            assert_eq!(r1.next_u64(), r2.next_u64());
        }
    }
}

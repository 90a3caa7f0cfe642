use rift_game::loot::affixes::{affix_pool, category, lookup, resonance_pool, AffixCategory, AffixDef, AffixEffect};
use rift_game::loot::enchant::{
    apply_reroll, plan_reroll, reroll_candidates, reroll_entropy_seed, reroll_excluded, EnchantError,
};
use rift_game::loot::item::{Item, RolledAffix};
use rift_game::loot::items::{base_item, BaseItem, BASE_ITEM_COUNT};
use rift_game::loot::rarity::Rarity;
use rift_game::loot::rng::LootRng;
use rift_game::loot::roll::{Magnitude, RollPlan};
use rift_game::stats::Stat;

fn base(id: &str) -> BaseItem {
    (0..BASE_ITEM_COUNT).map(base_item).find(|b| b.id == id).unwrap_or_else(|| panic!("missing base item `{id}`"))
}

fn roll_value(def: &AffixDef, ilvl: u32, m: Magnitude) -> f32 {
    let lo0 = def.roll.0 as f32 / 1000.0;
    let hi0 = def.roll.1 as f32 / 1000.0;
    match m {
        Magnitude::Fixed => lo0,
        Magnitude::Drawn(u) => {
            let scale = ilvl.saturating_sub(1) as f32 * (def.ilvl_scale as f32 / 1000.0);
            (lo0 + scale) + ((hi0 + scale) - (lo0 + scale)) * (u as f32 / (1u32 << 24) as f32)
        }
    }
}

fn finish(plan: RollPlan) -> Item {
    let values: Vec<u32> = plan.lines.iter().map(|l| roll_value(&l.def, plan.ilvl, l.magnitude).to_bits()).collect();
    plan.into_item(values)
}

/// Magnitude of a rerolled line: over the range at the item's level.
fn reroll_value(def: &AffixDef, ilvl: u32, m: Magnitude) -> f32 {
    let scale = ilvl.saturating_sub(1) as f32 * (def.ilvl_scale as f32 / 1000.0);
    let lo = def.roll.0 as f32 / 1000.0 + scale;
    let hi = def.roll.1 as f32 / 1000.0 + scale;
    match m {
        Magnitude::Fixed => lo,
        Magnitude::Drawn(u) => lo + (hi - lo) * (u as f32 / (1u32 << 24) as f32),
    }
}

fn reroll_affix(item: &mut Item, affix_index: u8, rng: &mut LootRng) -> Result<(), EnchantError> {
    let plan = plan_reroll(item, affix_index, rng)?;
    let v = reroll_value(&plan.def, item.ilvl, plan.magnitude).to_bits();
    let sv = match plan.swap {
        Some((_, m2)) => reroll_value(&item.affixes[affix_index as usize].def, item.ilvl, m2).to_bits(),
        None => 0,
    };
    apply_reroll(item, &plan, v, sv);
    Ok(())
}

fn item_with(b: &str, ilvl: u32, lines: &[(&str, f32)]) -> Item {
    Item {
        base: base(b),
        rarity: Rarity::Rare,
        ilvl,
        affixes: lines
            .iter()
            .map(|(id, v)| RolledAffix { def: lookup(id).unwrap(), value_bits: v.to_bits() })
            .collect(),
        anchored: false,
        unstable: false,
        provenance: None,
        unique_id: None,
        unique_pick: None,
        rift_touched: None,
        enchanted_affix_index: None,
    }
}

fn ids(c: &[AffixDef]) -> Vec<&'static str> {
    c.iter().map(|d| d.id).collect()
}

fn rerollable_item() -> (Item, u8) {
    for seed in 1..500 {
        let item = finish(Item::roll(&base("staff_basic"), Rarity::Rare, 20, &mut LootRng::new(seed)));
        for idx in 0..item.affixes.len() {
            let mut probe = item.clone();
            if reroll_affix(&mut probe, idx as u8, &mut LootRng::new(seed + 10_000)).is_ok() {
                return (item, idx as u8);
            }
        }
    }
    panic!("test pool should produce a rerollable rare staff");
}

#[test]
fn first_reroll_locks_slot_and_same_slot_can_repeat() {
    let (mut item, idx) = rerollable_item();
    assert_eq!(item.enchanted_affix_index, None);
    reroll_affix(&mut item, idx, &mut LootRng::new(42)).unwrap();
    assert_eq!(item.enchanted_affix_index, Some(idx));
    reroll_affix(&mut item, idx, &mut LootRng::new(43)).unwrap();
    assert_eq!(item.enchanted_affix_index, Some(idx));
}

#[test]
fn locked_item_rejects_other_affix_slot() {
    let (mut item, idx) = rerollable_item();
    reroll_affix(&mut item, idx, &mut LootRng::new(42)).unwrap();
    let other = (0..item.affixes.len()).find(|i| *i != idx as usize).expect("another affix") as u8;
    let before = item.affixes[other as usize].def.id;
    assert_eq!(reroll_affix(&mut item, other, &mut LootRng::new(99)), Err(EnchantError::LockedToDifferentAffix));
    assert_eq!(item.affixes[other as usize].def.id, before);
}

#[test]
fn attribute_reroll_any_primary_line_ok_and_locks_slot() {
    let mut item = item_with("staff_basic", 20, &[("flat_intellect", 10.0)]);
    assert_eq!(reroll_affix(&mut item, 0, &mut LootRng::new(1)), Ok(()));
    assert_eq!(item.enchanted_affix_index, Some(0));
    match item.affixes[0].def.effect {
        AffixEffect::Stat(Stat::Strength | Stat::Agility | Stat::Intellect) => {}
        _ => panic!("expected primary-attribute roll"),
    }
}

#[test]
fn reroll_entropy_seed_split_collisions() {
    let item_a = item_with("staff_basic", 20, &[("flat_intellect", 10.0)]);
    let item_b = item_with("staff_basic", 21, &[("flat_intellect", 10.0)]);
    assert_ne!(reroll_entropy_seed(42, 7, 0, 0, 0, &item_a), reroll_entropy_seed(42, 7, 0, 0, 0, &item_b));
    assert_ne!(reroll_entropy_seed(42, 7, 0, 0, 0, &item_a), reroll_entropy_seed(42, 7, 0, 1, 0, &item_a));
}

#[test]
fn bonus_reroll_keeps_offensive_lane_on_gloves_crit_damage() {
    let item = item_with("light_gloves", 20, &[("pct_crit_damage", 0.166)]);
    let cands = ids(&reroll_candidates(&item, 0).expect("reroll candidates"));
    assert!(cands.contains(&"pct_crit_chance"));
    assert!(cands.contains(&"pct_attack_speed"));
    assert!(!cands.contains(&"pct_move_speed"));
    assert!(!cands.contains(&"pct_resource_regen"));
    assert!(!cands.contains(&"flat_health_regen"));
}

#[test]
fn glove_crit_signature_pair_lists_opposite_crit_in_pool() {
    let item = item_with("light_gloves", 20, &[("pct_crit_chance", 0.03), ("pct_crit_damage", 0.15)]);
    let c0 = ids(&reroll_candidates(&item, 0).expect("idx 0"));
    assert!(c0.contains(&"pct_crit_damage"), "{:?}", c0);
    let c1 = ids(&reroll_candidates(&item, 1).expect("idx 1"));
    assert!(c1.contains(&"pct_crit_chance"), "{:?}", c1);
}

#[test]
fn glove_crit_swap_pool_when_crit_lines_not_at_indices_zero_one() {
    let item = item_with(
        "light_gloves",
        20,
        &[("flat_intellect", 8.0), ("pct_crit_chance", 0.039), ("pct_crit_damage", 0.166), ("flat_health", 22.0)],
    );
    let idx_cc = item.affixes.iter().position(|a| a.def.id == "pct_crit_chance").unwrap();
    let pool = ids(&reroll_candidates(&item, idx_cc as u8).expect("reroll pool"));
    assert!(pool.contains(&"pct_crit_damage"), "{:?}", pool);
}

#[test]
fn glove_low_ilvl_crit_reroll_includes_sibling_crit_despite_damage_min_ilvl() {
    let item = item_with("light_gloves", 2, &[("pct_crit_chance", 0.025), ("pct_crit_damage", 0.12)]);
    let pool = ids(&reroll_candidates(&item, 0).expect("pool"));
    assert!(pool.contains(&"pct_crit_damage"), "{:?}", pool);
    let pool_cd = ids(&reroll_candidates(&item, 1).expect("crit damage row"));
    assert!(pool_cd.contains(&"pct_crit_damage"), "{:?}", pool_cd);
    assert!(pool_cd.contains(&"pct_crit_chance"), "{:?}", pool_cd);
}

#[test]
fn glove_crit_swap_roll_preserves_one_chance_one_damage() {
    let item_orig = item_with("light_gloves", 30, &[("pct_crit_chance", 0.04), ("pct_crit_damage", 0.18)]);
    let mut saw_swap = false;
    for seed in 0_u64..250_000 {
        let mut probe = item_orig.clone();
        let mut rng = LootRng::new(seed);
        if reroll_affix(&mut probe, 0, &mut rng).is_err() {
            continue;
        }
        let got: Vec<&str> = probe.affixes.iter().take(2).map(|a| a.def.id).collect();
        if got == ["pct_crit_damage", "pct_crit_chance"] {
            saw_swap = true;
            break;
        }
    }
    assert!(saw_swap, "expected some RNG seed to roll swap onto damage while sibling held damage");
}

#[test]
fn glove_signature_crit_pair_offers_multiple_bonus_candidates() {
    let item = item_with("light_gloves", 20, &[("pct_crit_chance", 0.03), ("pct_crit_damage", 0.15)]);
    let ids0 = ids(&reroll_candidates(&item, 0).expect("idx 0"));
    assert!(ids0.contains(&"pct_crit_chance"), "{:?}", ids0);
    assert!(ids0.iter().any(|id| *id != "pct_attack_speed"), "{:?}", ids0);
    let ids1 = ids(&reroll_candidates(&item, 1).expect("idx 1"));
    assert!(ids1.contains(&"pct_crit_damage"), "{:?}", ids1);
    assert!(ids1.iter().any(|id| *id != "pct_attack_speed"), "{:?}", ids1);
}

#[test]
fn bonus_reroll_attack_speed_offers_crit_pair_on_gloves() {
    let item = item_with("light_gloves", 20, &[("pct_attack_speed", 0.07)]);
    let cands = ids(&reroll_candidates(&item, 0).expect("reroll candidates"));
    assert!(cands.contains(&"pct_crit_chance"));
    assert!(cands.contains(&"pct_crit_damage"));
}

#[test]
fn attribute_reroll_pivots_across_primary_trio_despite_family_lock() {
    let item = item_with("robe_chest", 20, &[("flat_intellect", 12.0)]);
    let cands = ids(&reroll_candidates(&item, 0).expect("reroll candidates"));
    assert!(cands.contains(&"flat_strength"));
    assert!(cands.contains(&"flat_agility"));
    assert!(cands.contains(&"flat_intellect"));
}

#[test]
fn bonus_reroll_keeps_sustain_lane_from_essence_regen() {
    let item = item_with("light_gloves", 20, &[("pct_resource_regen", 0.08)]);
    let cands = ids(&reroll_candidates(&item, 0).expect("reroll candidates"));
    assert!(!cands.contains(&"pct_crit_damage"));
    assert!(!cands.contains(&"pct_attack_speed"));
    assert!(cands.contains(&"pct_move_speed"));
}

#[test]
fn damage_percent_enchant_pool_spans_all_elements() {
    let item = item_with("dagger_basic", 30, &[("pct_physical_damage", 0.10)]);
    let cands = ids(&reroll_candidates(&item, 0).expect("reroll candidates"));
    assert!(cands.contains(&"pct_fire_damage"));
}

#[test]
fn reroll_pool_partitions_into_included_and_excluded_previews() {
    let (item, idx) = rerollable_item();
    let n_in = reroll_candidates(&item, idx).expect("candidates").len();
    let n_ex = reroll_excluded(&item, idx).expect("excluded").len();
    let pool_n = match category(&item.affixes[idx as usize].def) {
        AffixCategory::Resonance => resonance_pool().len(),
        _ => affix_pool().len(),
    };
    assert_eq!(n_in + n_ex, pool_n);
}

#[test]
fn refused_rerolls_name_their_reason() {
    let mut item = item_with("staff_basic", 20, &[("flat_intellect", 10.0)]);
    assert_eq!(reroll_candidates(&item, 3).err(), Some(EnchantError::InvalidAffixIndex));
    assert_eq!(reroll_affix(&mut item, 1, &mut LootRng::new(1)), Err(EnchantError::InvalidAffixIndex));
    let ex = reroll_excluded(&item, 0).unwrap();
    assert!(ex.iter().any(|(d, r)| d.id == "pct_move_speed" && *r == "not attribute"));
    assert!(ex.iter().any(|(d, r)| d.id == "amp_frost_ray_dmg" && *r == "needs ilvl" || d.id == "amp_frost_ray_dmg" && *r == "wrong effect family"));
    let mut rt = item_with("staff_basic", 20, &[("flat_intellect", 10.0)]);
    rt.affixes[0].def = rift_game::loot::affixes::rift_touched_pool()[0];
    assert_eq!(reroll_candidates(&rt, 0).err(), Some(EnchantError::NoCandidate));
}

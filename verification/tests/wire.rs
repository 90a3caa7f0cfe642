use rift_game::loot::affixes::{is_resonance, rift_touched_pool, AffixDef};
use rift_game::loot::item::{Item, LootProvenance, RolledRiftTouched};
use rift_game::loot::items::{base_item, BASE_ITEM_COUNT};
use rift_game::loot::rarity::Rarity;
use rift_game::loot::rng::LootRng;
use rift_game::loot::roll::{Magnitude, RollPlan};

fn roll_value(def: &AffixDef, ilvl: u32, m: Magnitude) -> f32 {
    let lo0 = def.roll.0 as f32 / 1000.0;
    let hi0 = def.roll.1 as f32 / 1000.0;
    match m {
        Magnitude::Fixed => lo0,
        Magnitude::Drawn(u) => {
            let scale = ilvl.saturating_sub(1) as f32 * (def.ilvl_scale as f32 / 1000.0);
            (lo0 + scale) + ((hi0 + scale) - (lo0 + scale)) * (u as f32 / (1u32 << 24) as f32)
        }
    }
}

fn finish(plan: RollPlan) -> Item {
    let values: Vec<u32> = plan.lines.iter().map(|l| roll_value(&l.def, plan.ilvl, l.magnitude).to_bits()).collect();
    plan.into_item(values)
}

#[test]
fn resonance_item_round_trips_to_wire() {
    let base = (0..BASE_ITEM_COUNT).map(base_item).find(|b| b.id == "staff_basic").unwrap();
    let mut rng = LootRng::new(77_777);
    for _ in 0..25_000 {
        let item = finish(Item::roll(&base, Rarity::Rare, 28, &mut rng));
        if !item.affixes.iter().any(|a| is_resonance(&a.def)) {
            continue;
        }
        let (bid, rarity, ilvl, affixes, anchored, unique_id, unique_pick) = item.to_wire();
        let rebuilt = Item::from_wire(bid, rarity, ilvl, &affixes, anchored, None, unique_id, unique_pick).expect("decode");
        assert_eq!(item.affixes.len(), rebuilt.affixes.len());
        for (a, b) in item.affixes.iter().zip(rebuilt.affixes.iter()) {
            assert_eq!(a.def.id, b.def.id);
            assert!((f32::from_bits(a.value_bits) - f32::from_bits(b.value_bits)).abs() < 1e-5);
        }
        return;
    }
    panic!("expected at least one resonance line within trial budget");
}

#[test]
fn legendary_round_trips_through_persistence() {
    let base = (0..BASE_ITEM_COUNT).map(base_item).find(|b| b.id == "amulet_basic").unwrap();
    let item = finish(Item::roll(&base, Rarity::Legendary, 12, &mut LootRng::new(5)));
    let (bid, rarity, ilvl, affixes, anchored, unique_id, unique_pick) = item.to_persisted();
    assert_eq!(bid, "amulet_basic");
    let borrowed: Option<&str> = unique_id.as_deref();
    let back = Item::from_persisted(&bid, rarity, ilvl, &affixes, anchored, None, borrowed, unique_pick).expect("load");
    assert_eq!(back.base.id, item.base.id);
    assert_eq!(back.rarity, item.rarity);
    assert_eq!(back.ilvl, item.ilvl);
    assert_eq!(back.unique_id, item.unique_id);
    assert_eq!(back.unique_pick, item.unique_pick);
    for (a, b) in item.affixes.iter().zip(back.affixes.iter()) {
        assert_eq!(a.def.id, b.def.id);
        assert_eq!(a.value_bits, b.value_bits);
    }
}

#[test]
fn corrupt_wire_rows_are_refused() {
    assert!(Item::from_wire(BASE_ITEM_COUNT as u16, 0, 1, &[], false, None, None, None).is_none());
    assert!(Item::from_wire(0, 4, 1, &[], false, None, None, None).is_none());
    assert!(Item::from_wire(0, 0, 1, &[(999, 0)], false, None, None, None).is_none());
    let ok = Item::from_wire(0, 3, 7, &[(0, 5.0f32.to_bits())], true, Some(LootProvenance::from_ids(vec![[1u8; 16]])), None, None)
        .expect("valid row");
    assert_eq!(ok.rarity, Rarity::Legendary);
    assert_eq!(ok.ilvl, 7);
    assert!(ok.anchored);
    assert!(!ok.unstable);
    assert_eq!(ok.affixes[0].def.id, "flat_strength");
    assert!(Item::from_persisted("no_such_base", 0, 1, &[], false, None, None, None).is_none());
    assert!(Item::from_persisted("staff_basic", 0, 1, &[("no_such_affix".to_string(), 0)], false, None, None, None).is_none());
    let unknown_unique = Item::from_persisted("staff_basic", 3, 1, &[], false, None, Some("retired_unique"), Some(1)).unwrap();
    assert_eq!(unknown_unique.unique_id, None);
}

#[test]
fn rift_touched_line_round_trips() {
    let def = rift_touched_pool()[2];
    let mut item = Item::from_wire(0, 1, 5, &[], false, None, None, None).unwrap();
    item.rift_touched = Some(RolledRiftTouched { def, value_bits: 0.25f32.to_bits(), depth: 9 });
    let w = item.rift_touched_to_wire();
    assert_eq!(w, Some((2, 0.25f32.to_bits(), 9)));
    let back = Item::rift_touched_from_wire(w).unwrap();
    assert_eq!(back.def.id, def.id);
    assert_eq!(back.depth, 9);
    let p = item.rift_touched_to_persisted().unwrap();
    assert_eq!(p.0, def.id);
    let back = Item::rift_touched_from_persisted(Some((p.0.as_str(), p.1, -4))).unwrap();
    assert_eq!(back.depth, 0);
    assert!(Item::rift_touched_from_wire(Some((99, 0, 0))).is_none());
    assert!(Item::rift_touched_from_persisted(Some(("rt_nothing", 0, 1))).is_none());
    assert!(Item::rift_touched_from_wire(None).is_none());
}

#[test]
fn wire_item_level_truncates_to_sixteen_bits() {
    let mut item = Item::from_wire(0, 0, 5, &[], false, None, None, None).unwrap();
    item.ilvl = 70_000;
    let (_, _, ilvl, _, _, _, _) = item.to_wire();
    assert_eq!(ilvl, (70_000u32 & 0xffff) as u16);
}

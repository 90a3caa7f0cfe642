use rift_game::abilities::{id, AbilityWireId};
use rift_game::loadout::{empty_slot, Loadout as ActionBar};
use rift_game::loot::affixes::lookup;
use rift_game::loot::drops::{
    boss_table, brute_table, caster_table, elite_table, pick_rarity, resolve, stalker_table, table_for, BaseItemSelector,
    LootEntry, SlotFilter,
};
use rift_game::loot::equipment::Equipment;
use rift_game::loot::inventory::{can_equip, Inventory, Loadout};
use rift_game::loot::item::{Item, LootProvenance, RolledAffix};
use rift_game::loot::items::{base_item, EquipSlot, ItemSlot, WeaponKind, BASE_ITEM_COUNT};
use rift_game::loot::name_gen::{adjective_for, suffix_for};
use rift_game::loot::rarity::Rarity;
use rift_game::loot::rng::LootRng;
use rift_game::loot::synergy::SynergyLink;
use rift_game::loot::tooltip::name_prefix;
use rift_game::monsters::MonsterRole;

fn item(base_id: &str, lines: &[&str]) -> Item {
    let base = (0..BASE_ITEM_COUNT).map(base_item).find(|b| b.id == base_id).unwrap();
    Item {
        base,
        rarity: Rarity::Rare,
        ilvl: 10,
        affixes: lines.iter().map(|id| RolledAffix { def: lookup(id).unwrap(), value_bits: 0 }).collect(),
        anchored: false,
        unstable: false,
        provenance: None,
        unique_id: None,
        unique_pick: None,
        rift_touched: None,
        enchanted_affix_index: None,
    }
}

#[test]
fn provenance_sorts_dedups_and_allows_members() {
    let a = [3u8; 16];
    let b = [1u8; 16];
    let p = LootProvenance::from_ids(vec![a, b, a]);
    assert_eq!(p.eligible, vec![b, a]);
    assert!(p.allows(&a));
    assert!(!p.allows(&[2u8; 16]));
    assert!(!LootProvenance::from_ids(Vec::new()).allows(&a));
}

#[test]
fn equipping_from_the_bag_swaps_and_conserves_items() {
    let mut inv = Inventory::new();
    inv.pick_up(item("staff_basic", &[]));
    inv.pick_up(item("wand_basic", &[]));
    inv.pick_up(item("light_helm", &[]));
    assert!(!inv.equip_from_bag(9, EquipSlot::Weapon));
    assert!(!inv.equip_from_bag(2, EquipSlot::Weapon));
    assert!(inv.equip_from_bag(0, EquipSlot::Weapon));
    assert_eq!(inv.equipped.get(EquipSlot::Weapon).unwrap().base.id, "staff_basic");
    assert_eq!(inv.bag.len(), 2);
    assert_eq!(inv.bag[0].base.id, "light_helm");
    assert!(inv.equip_from_bag(1, EquipSlot::Weapon));
    assert_eq!(inv.equipped.get(EquipSlot::Weapon).unwrap().base.id, "wand_basic");
    assert_eq!(inv.bag.len(), 2);
    assert_eq!(inv.bag[1].base.id, "staff_basic");
    assert!(inv.unequip(EquipSlot::Weapon));
    assert!(!inv.unequip(EquipSlot::Weapon));
    assert_eq!(inv.bag.len(), 3);
}

#[test]
fn rings_fit_either_ring_slot() {
    let ring = item("ring_basic", &[]);
    assert!(can_equip(&ring, EquipSlot::Ring1));
    assert!(can_equip(&ring, EquipSlot::Ring2));
    assert!(!can_equip(&ring, EquipSlot::Amulet));
    assert!(Equipment::accepts(EquipSlot::Ring2, &ring));
    let mut eq = Equipment::new();
    assert_eq!(eq.default_slot(&ring), EquipSlot::Ring1);
    assert!(eq.set(EquipSlot::Ring1, Some(ring.clone())).is_none());
    assert_eq!(eq.default_slot(&ring), EquipSlot::Ring2);
    assert_eq!(eq.count(), 1);
    assert_eq!(eq.take(EquipSlot::Ring1).unwrap().base.id, "ring_basic");
    assert_eq!(eq.count(), 0);
    let mut l = Loadout::new();
    assert!(l.set(EquipSlot::Shoulders, Some(item("light_shoulders", &[]))).is_none());
    assert!(l.get(EquipSlot::Shoulders).is_some());
}

#[test]
fn selectors_resolve_against_the_catalogue() {
    let weapons = resolve(BaseItemSelector::SlotKind(SlotFilter::AnyWeapon), 1);
    assert_eq!(weapons.len(), 4);
    let staff = resolve(BaseItemSelector::SlotKind(SlotFilter::Exact(ItemSlot::Weapon(WeaponKind::Staff))), 1);
    assert_eq!(staff.len(), 1);
    assert_eq!(resolve(BaseItemSelector::Exact("amulet_basic"), 1).len(), 1);
    assert!(resolve(BaseItemSelector::Exact("nope"), 1).is_empty());
    assert!(resolve(BaseItemSelector::Tagged(0), 1).is_empty());
    let e = LootEntry::new(BaseItemSelector::Tagged(1), 3);
    assert_eq!(e.weight, 3);
    assert!(e.rarity_override.is_none());
}

#[test]
fn bosses_always_drop_at_least_their_extra_rolls() {
    let t = table_for(MonsterRole::Boss);
    for seed in 1..50u64 {
        let drops = t.roll(&mut LootRng::new(seed), 10);
        assert!(drops.len() >= 2 && drops.len() <= 3, "boss dropped {}", drops.len());
        for d in &drops {
            assert!(d.ilvl >= 11 && d.ilvl <= 12);
        }
    }
}

#[test]
fn brutes_drop_rarely() {
    let t = table_for(MonsterRole::Brute);
    let mut n = 0;
    for seed in 1..2000u64 {
        n += t.roll(&mut LootRng::new(seed.wrapping_mul(0x9E37_79B9_7F4A_7C15)), 5).len();
    }
    assert!(n > 200 && n < 550, "brute drops {n} of 2000");
}

#[test]
fn rarity_weights_pick_bands() {
    let mut rng = LootRng::new(1);
    assert_eq!(pick_rarity(&[0, 0, 0, 0], &mut rng), Rarity::Common);
    assert_eq!(pick_rarity(&[0, 0, 0, 7], &mut rng), Rarity::Legendary);
    assert_eq!(pick_rarity(&[0, 5, 0, 0], &mut rng), Rarity::Magic);
}

#[test]
fn synergy_footer_links_affixes_to_slotted_abilities() {
    let bar = ActionBar {
        slots: [
            AbilityWireId::new(id::FIRE_BALL),
            AbilityWireId::new(id::FROST_RAY),
            empty_slot(),
            empty_slot(),
            empty_slot(),
            empty_slot(),
        ],
    };
    let it = item("staff_basic", &["pct_fire_damage", "cdr_frost_ray", "flat_health"]);
    let hits = it.synergy_against(&bar);
    assert_eq!(hits.len(), 2);
    assert_eq!(hits[0].slot, 0);
    assert!(matches!(hits[0].link, SynergyLink::Boosts("Fire")));
    assert_eq!(hits[1].slot, 1);
    assert!(matches!(hits[1].link, SynergyLink::Affects));
}

#[test]
fn procedural_name_words() {
    assert_eq!(adjective_for(&lookup("pct_fire_damage").unwrap()), Some("Molten"));
    assert_eq!(adjective_for(&lookup("flat_health").unwrap()), None);
    assert_eq!(suffix_for(&lookup("pct_move_speed").unwrap()), Some("of the Wraith"));
    assert_eq!(suffix_for(&lookup("transform_frost_ray_shatter").unwrap()), None);
    assert_eq!(name_prefix(true, true), "Unstable ");
    assert_eq!(name_prefix(false, true), "Anchored ");
    assert_eq!(name_prefix(false, false), "");
}

#[test]
fn footprints_follow_the_slot() {
    let it = item("light_chest", &[]);
    assert_eq!(it.footprint(), EquipSlot::Chest.inventory_size());
    let (p, u) = item("staff_basic", &[]).display_name_parts();
    assert_eq!(p, "");
    assert_eq!(u, None);
}

#[test]
fn equipment_iter_walks_filled_slots_in_slot_order() {
    let mut eq = Equipment::new();
    eq.set(EquipSlot::Shoulders, Some(item("light_shoulders", &[])));
    eq.set(EquipSlot::Weapon, Some(item("staff_basic", &[])));
    eq.set(EquipSlot::Ring2, Some(item("ring_basic", &[])));
    let seen: Vec<(EquipSlot, &str)> = eq.iter().into_iter().map(|(s, it)| (s, it.base.id)).collect();
    assert_eq!(
        seen,
        vec![(EquipSlot::Weapon, "staff_basic"), (EquipSlot::Ring2, "ring_basic"), (EquipSlot::Shoulders, "light_shoulders")]
    );

    let mut lo = Loadout::new();
    lo.set(EquipSlot::Amulet, Some(item("amulet_basic", &[])));
    lo.set(EquipSlot::Helm, Some(item("light_helm", &[])));
    lo.set(EquipSlot::Shoulders, Some(item("light_shoulders", &[])));
    let seen: Vec<(EquipSlot, &str)> = lo.iter().into_iter().map(|(s, it)| (s, it.base.id)).collect();
    assert_eq!(seen, vec![(EquipSlot::Helm, "light_helm"), (EquipSlot::Amulet, "amulet_basic")]);
}

#[test]
fn a_drop_seeded_the_same_way_replays_the_same() {
    for role in [MonsterRole::Brute, MonsterRole::Elite, MonsterRole::Boss] {
        let t = table_for(role);
        for seed in 1..20u64 {
            let s = seed.wrapping_mul(0x9E37_79B9_7F4A_7C15);
            let a = t.roll(&mut LootRng::new(s), 15);
            let b = t.roll(&mut LootRng::new(s), 15);
            assert_eq!(a.len(), b.len());
            for (x, y) in a.iter().zip(b.iter()) {
                assert_eq!(x.base.id, y.base.id);
                assert_eq!(x.rarity, y.rarity);
                assert_eq!(x.ilvl, y.ilvl);
                let xs: Vec<&str> = x.lines.iter().map(|l| l.def.id).collect();
                let ys: Vec<&str> = y.lines.iter().map(|l| l.def.id).collect();
                assert_eq!(xs, ys);
            }
        }
    }
}

#[test]
fn archetype_lines_boost_abilities_of_their_shape() {
    let bar = ActionBar {
        slots: [
            AbilityWireId::new(id::FIRE_BALL),
            AbilityWireId::new(id::FROST_RAY),
            empty_slot(),
            empty_slot(),
            empty_slot(),
            empty_slot(),
        ],
    };
    let it = item("staff_basic", &["pct_projectile_damage"]);
    let hits = it.synergy_against(&bar);
    assert_eq!(hits.len(), 1);
    assert_eq!(hits[0].slot, 0);
    assert!(matches!(hits[0].link, SynergyLink::Boosts("Projectile")));
    let melee = item("sword_basic", &["pct_melee_damage"]);
    assert!(melee.synergy_against(&bar).is_empty());
}

#[test]
fn each_role_gets_its_table() {
    let b = brute_table();
    assert_eq!(b.rarity_weights, [70, 25, 5, 0]);
    assert_eq!(b.extra_rolls, 0);
    assert_eq!(b.entries.len(), 2);
    assert!(matches!(b.entries[0].selector, BaseItemSelector::Tagged(_)));
    assert_eq!(b.entries[0].weight, 6);
    let s = stalker_table();
    assert_eq!(s.rarity_weights, [60, 30, 10, 0]);
    let c = caster_table();
    assert_eq!(c.rarity_weights, [55, 30, 13, 2]);
    assert_eq!(c.entries.len(), 3);
    let e = elite_table();
    assert_eq!(e.rarity_weights, [20, 45, 30, 5]);
    let boss = boss_table();
    assert_eq!(boss.rarity_weights, [0, 30, 50, 20]);
    assert_eq!(boss.extra_rolls, 2);
    assert_eq!(boss.drop_units, 1 << 24);
    assert_eq!(boss.entries[2].rarity_override, Some(Rarity::Legendary));
    assert_eq!(boss.entries[2].ilvl_offset, 2);
    assert_eq!(table_for(MonsterRole::Brute).rarity_weights, b.rarity_weights);
    assert_eq!(table_for(MonsterRole::Stalker).drop_units, s.drop_units);
    assert_eq!(table_for(MonsterRole::Wraith).rarity_weights, s.rarity_weights);
    assert_eq!(table_for(MonsterRole::Wraith).drop_units, s.drop_units);
    assert_eq!(table_for(MonsterRole::Mindbinder).rarity_weights, c.rarity_weights);
    assert_eq!(table_for(MonsterRole::Mindbinder).drop_units, c.drop_units);
    assert_eq!(table_for(MonsterRole::Elite).drop_units, e.drop_units);
    assert_eq!(table_for(MonsterRole::Boss).extra_rolls, 2);
}

#[test]
fn rng_state_never_reaches_zero() {
    let mut rng = LootRng::new(0);
    for _ in 0..10_000 {
        assert_ne!(rng.next_u64(), 0);
    }
    let mut rng = LootRng::new(1);
    for _ in 0..10_000 {
        assert_ne!(rng.next_u64(), 0);
    }
}

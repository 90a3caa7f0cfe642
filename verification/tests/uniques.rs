use rift_game::abilities::AbilityId;
use rift_game::loot::affixes::ProcAction;
use rift_game::loot::items::{base_item, BASE_ITEM_COUNT};
use rift_game::loot::uniques::{candidates_for, find, mirrorglass_pool, uniques, LegendaryEffect, UniqueRoll};

#[test]
fn every_unique_id_is_unique() {
    let mut ids: Vec<&'static str> = uniques().iter().map(|u| u.id).collect();
    ids.sort();
    let n = ids.len();
    ids.dedup();
    assert_eq!(ids.len(), n, "duplicate unique id in the table");
}

#[test]
fn pool_uniques_have_non_empty_pool() {
    for u in uniques() {
        if let UniqueRoll::Pool { pool, .. } = u.roll {
            assert!(!pool.is_empty(), "unique `{}` has empty pool", u.id);
            assert!(pool.len() <= u8::MAX as usize, "unique `{}` pool exceeds u8 index", u.id);
        }
    }
}

#[test]
fn find_resolves_every_authored_id() {
    for u in uniques() {
        assert!(find(u.id).is_some(), "find() missed unique `{}`", u.id);
    }
}

#[test]
fn find_returns_none_for_unknown() {
    assert!(find("not_a_real_unique").is_none());
}

#[test]
fn every_unique_matches_at_least_one_base() {
    for u in uniques() {
        let any = (0..BASE_ITEM_COUNT)
            .map(base_item)
            .any(|b| candidates_for(&b).iter().any(|c| c.id == u.id));
        assert!(any, "unique `{}` ({:?}) matches no base in the catalogue", u.id, u.equip_slot);
    }
}

#[test]
fn build_returns_fixed_effect_ignoring_pick() {
    let u = find("embercrown").expect("embercrown");
    match u.build(None) {
        Some(LegendaryEffect::Transform { ability, .. }) => {
            assert_eq!(ability, AbilityId("fire_ball"));
        }
        other => panic!("expected Transform effect, got {:?}", other),
    }
    assert!(matches!(u.build(Some(99)), Some(LegendaryEffect::Transform { .. })));
}

#[test]
fn build_pool_resolves_to_picked_ability() {
    let u = find("mirrorglass_amulet").expect("mirrorglass");
    for (i, expected) in mirrorglass_pool().iter().enumerate() {
        match u.build(Some(i as u8)) {
            Some(LegendaryEffect::Proc { action: ProcAction::CastAbility(a), chance, .. }) => {
                assert_eq!(a, *expected);
                assert_eq!(chance, 100);
            }
            other => panic!("pool pick {i} unexpected: {:?}", other),
        }
    }
    assert!(u.build(Some(99)).is_none());
    assert!(u.build(None).is_some());
}

#[test]
fn needs_pick_and_pool_len_follow_the_roll_kind() {
    let m = find("mirrorglass_amulet").unwrap();
    assert!(m.needs_pick());
    assert_eq!(m.pool_len(), 3);
    let e = find("embercrown").unwrap();
    assert!(!e.needs_pick());
    assert_eq!(e.pool_len(), 0);
}

#[test]
fn ice_staff_unique_only_fits_staves_that_roll_ice() {
    let staff = (0..BASE_ITEM_COUNT).map(base_item).find(|b| b.id == "staff_basic").unwrap();
    let sword = (0..BASE_ITEM_COUNT).map(base_item).find(|b| b.id == "sword_basic").unwrap();
    assert!(candidates_for(&staff).iter().any(|u| u.id == "shardspire"));
    assert!(candidates_for(&sword).is_empty());
}

use rift_game::loot::affixes::{
    affix_def_by_wire_index, affix_pool, is_resonance, is_rift_touched, lookup, resonance_pool,
    rift_touched_pool, signature_for, wire_index_for_affix, AffixEffect,
};
use rift_game::loot::items::EquipSlot;
use rift_game::loot::rng::LootRng;

#[test]
fn every_signature_id_resolves_in_pool() {
    for slot in EquipSlot::all() {
        for seed in 0..32u64 {
            let mut rng = LootRng::new(seed.wrapping_mul(0x9E37_79B9_7F4A_7C15));
            let ids = signature_for(slot, &mut rng);
            for id in ids {
                assert!(lookup(id).is_some(), "signature id `{id}` for slot {slot:?} (seed {seed}) not found");
            }
        }
    }
}

#[test]
fn every_affix_id_is_globally_unique() {
    let mut seen: std::collections::HashSet<&'static str> = Default::default();
    for d in affix_pool().iter().chain(resonance_pool().iter()).chain(rift_touched_pool().iter()) {
        assert!(seen.insert(d.id), "affix id `{}` appears more than once across the pools", d.id);
    }
}

#[test]
fn resonance_pool_prefix_and_lookup() {
    for d in resonance_pool() {
        assert!(d.id.starts_with("res_"), "resonance affix id `{}` is missing the `res_` prefix", d.id);
        assert!(lookup(d.id).is_some(), "resonance affix id `{}` doesn't resolve via `lookup`", d.id);
    }
}

#[test]
fn rift_touched_pool_contract() {
    assert!(!rift_touched_pool().is_empty());
    for d in rift_touched_pool() {
        assert!(d.id.starts_with("rt_"), "rift-touched affix id `{}` is missing the `rt_` prefix", d.id);
        assert!(lookup(d.id).is_some(), "rift-touched affix id `{}` doesn't resolve via `lookup`", d.id);
        assert_eq!(d.ilvl_scale, 0, "rift-touched affix `{}` declares a non-zero ilvl_scale", d.id);
    }
}

#[test]
fn every_name_template_has_correct_placeholder_count() {
    for d in affix_pool().iter().chain(resonance_pool().iter()).chain(rift_touched_pool().iter()) {
        let count = d.name_template.matches("{}").count();
        let expected = match d.effect {
            AffixEffect::TransformAbility(_, _) => 0,
            _ => 1,
        };
        assert_eq!(count, expected, "affix `{}` has {count} placeholder(s) but its effect wants {expected}", d.id);
    }
}

#[test]
fn main_and_resonance_indices_are_disjoint_bijections() {
    for (i, def) in affix_pool().iter().enumerate() {
        let w = wire_index_for_affix(def).unwrap_or_else(|| panic!("missing wire idx {}", def.id));
        assert_eq!(w as usize, i);
        assert_eq!(affix_def_by_wire_index(w).unwrap().id, def.id);
    }
    let off = affix_pool().len();
    for (j, def) in resonance_pool().iter().enumerate() {
        let w = wire_index_for_affix(def).unwrap_or_else(|| panic!("missing wire idx {}", def.id));
        assert_eq!(w as usize, off + j);
        assert_eq!(affix_def_by_wire_index(w).unwrap().id, def.id);
    }
}

#[test]
fn prefixes_classify_pools() {
    for d in affix_pool() {
        assert!(!is_resonance(d) && !is_rift_touched(d));
    }
    for d in resonance_pool() {
        assert!(is_resonance(d));
    }
    for d in rift_touched_pool() {
        assert!(is_rift_touched(d));
    }
    assert!(affix_def_by_wire_index((affix_pool().len() + resonance_pool().len()) as u16).is_none());
}

#[test]
fn signature_lines_per_slot() {
    let mut rng = LootRng::new(1);
    assert_eq!(signature_for(EquipSlot::Hands, &mut rng), vec!["pct_crit_chance", "pct_crit_damage"]);
    assert_eq!(signature_for(EquipSlot::Helm, &mut rng), vec!["pct_cooldown"]);
    assert!(signature_for(EquipSlot::Weapon, &mut rng).is_empty());
    assert!(lookup("no_such_affix").is_none());
}

#[test]
fn wire_indices_follow_pool_order() {
    assert_eq!(affix_def_by_wire_index(25).unwrap().id, "pct_projectile_damage");
    assert_eq!(affix_def_by_wire_index(26).unwrap().id, "pct_melee_damage");
    assert_eq!(affix_def_by_wire_index(27).unwrap().id, "res_physical_damage");
    assert_eq!(affix_def_by_wire_index(31).unwrap().id, "res_projectile_damage");
    assert_eq!(affix_def_by_wire_index(32).unwrap().id, "res_melee_damage");
    assert_eq!(affix_def_by_wire_index(35).unwrap().id, "res_intellect");
    assert!(affix_def_by_wire_index(36).is_none());
}

use rift_game::abilities::{id, lookup, lookup_by_id, AbilityId, AbilityWireId};
use rift_game::loadout::{empty_slot, Loadout};
use rift_game::attributes::{AttributeScaling, AttributeType, Attributes};
use rift_game::character::{CharacterProfile, CharacterRoster, Gender, MAX_CHARACTERS};
use rift_game::classes::{class_from_str, hunter};
use rift_game::debuffs::{bit_for, iter_mask};
use rift_game::experience::{checked_total_xp_for_level, total_xp_for_level, xp_for_level, Experience};
use rift_game::monsters::{MonsterRole, ALL_ROLES};
use rift_game::props::SmallRng;
use rift_game::stats::Stat;
use rift_game::text::{starts_with, str_eq};
use rift_game::talents::{hunter_tree, AbilityModifier, TalentEffect, TalentId, TalentStat};

#[test]
fn xp_curve_matches_the_formula_at_small_levels() {
    assert_eq!(xp_for_level(1), 100);
    assert_eq!(xp_for_level(2), 282);
    assert_eq!(xp_for_level(4), 800);
    assert_eq!(xp_for_level(10), 3162);
    assert_eq!(total_xp_for_level(1), 0);
    assert_eq!(total_xp_for_level(3), 282 + 519);
}

#[test]
fn grant_xp_levels_up_and_carries_the_remainder() {
    let mut e = Experience::new();
    assert_eq!(e.level, 1);
    assert_eq!(e.xp_to_next_level(), 282);
    let rewards = e.grant_xp(300);
    assert_eq!(rewards.len(), 1);
    assert_eq!(rewards[0].new_level, 2);
    assert_eq!(rewards[0].attribute_points, 2);
    assert_eq!(rewards[0].talent_points, 1);
    assert_eq!(e.level, 2);
    assert_eq!(e.current_xp, 18);
    assert_eq!(e.total_xp, 300);
}

#[test]
fn grant_xp_can_cross_several_levels_and_tenth_levels_pay_more() {
    let mut e = Experience::new();
    let rewards = e.grant_xp(total_xp_for_level(10));
    assert_eq!(e.level, 10);
    assert_eq!(e.current_xp, 0);
    assert_eq!(rewards.len(), 9);
    assert_eq!(rewards.last().unwrap().attribute_points, 5);
}

#[test]
fn server_threshold_overrides_until_the_next_level() {
    let mut e = Experience::new();
    e.set_xp_to_next(50);
    assert_eq!(e.xp_to_next_level(), 50);
    let r = e.grant_xp(60);
    assert_eq!(r.len(), 1);
    assert_eq!(e.current_xp, 10);
    assert_eq!(e.xp_to_next_level(), xp_for_level(3));
}

#[test]
fn attributes_spend_only_unspent_points() {
    let mut a = Attributes::for_class(AttributeType::Agility);
    let before = a.get(AttributeType::Agility);
    assert!(!a.spend_point(AttributeType::Agility));
    a.unspent_points = 1;
    assert!(a.spend_point(AttributeType::Agility));
    assert_eq!(a.get(AttributeType::Agility), before + 1);
    assert_eq!(a.unspent_points, 0);
    assert_eq!(AttributeScaling::new(AttributeType::Intellect).primary, AttributeType::Intellect);
}

#[test]
fn gender_wire_bytes_round_trip() {
    for g in [Gender::Female, Gender::Male] {
        assert_eq!(Gender::from_wire_byte(g.to_wire_byte()), Some(g));
    }
    assert_eq!(Gender::from_wire_byte(7), None);
    assert_eq!(Gender::Male.label(), "Male");
}

#[test]
fn roster_caps_and_removes() {
    let mut r = CharacterRoster::new();
    for i in 0..MAX_CHARACTERS {
        assert_eq!(r.add(CharacterProfile::new(format!("c{i}"), Gender::Female)), Some(i));
    }
    assert!(r.is_full());
    assert_eq!(r.add(CharacterProfile::new("extra".to_string(), Gender::Male)), None);
    r.remove(0);
    assert_eq!(r.len(), MAX_CHARACTERS - 1);
    assert_eq!(r.get(0).unwrap().name, "c1");
    assert!(r.get(10).is_none());
}

#[test]
fn debuff_masks_round_trip() {
    let mask = bit_for(1) | bit_for(4) | bit_for(31);
    assert_eq!(iter_mask(mask), vec![1, 4, 31]);
    assert_eq!(bit_for(32), 0);
}

#[test]
fn monster_roles_round_trip_their_wire_bytes() {
    for role in ALL_ROLES {
        assert_eq!(MonsterRole::from_wire_byte(role.to_wire_byte()), Some(role));
    }
    assert_eq!(MonsterRole::from_wire_byte(200), None);
    assert_eq!(MonsterRole::Boss.display_name(), "Boss");
}

#[test]
fn classes_fall_back_to_the_hunter() {
    assert_eq!(class_from_str("hunter"), hunter());
    assert_eq!(class_from_str("wizard"), hunter());
}

#[test]
fn small_rng_ranges_stay_in_bounds() {
    let mut r = SmallRng::new(0);
    for _ in 0..100 {
        let v = r.range(3, 9);
        assert!((3..9).contains(&v));
    }
    assert_eq!(r.range(5, 5), 5);
}

#[test]
fn stat_names_and_kinds() {
    assert_eq!(Stat::CritChance.name(), "Crit Chance");
    assert!(Stat::CritChance.is_percent());
    assert!(!Stat::Health.is_percent());
    assert!(Stat::AttackSpeed.is_offensive_bonus());
    assert!(!Stat::MoveSpeed.is_offensive_bonus());
}

#[test]
fn string_helpers() {
    assert!(str_eq("abc", "abc"));
    assert!(!str_eq("abc", "abd"));
    assert!(starts_with("res_fire", "res_"));
    assert!(!starts_with("re", "res_"));
}

#[test]
fn materialize_fills_known_slots_and_the_roll() {
    let e = empty_slot();
    let lo = Loadout { slots: [AbilityWireId(id::FIRE_BALL), e, AbilityWireId(200), e, e, AbilityWireId(id::WHIRLWIND)] };
    let bar = lo.materialize();
    assert_eq!(bar.slots[0].map(|r| r.name), Some("Fireball"));
    assert!(bar.slots[1].is_none());
    assert!(bar.slots[2].is_none());
    assert_eq!(bar.slots[5].map(|r| r.wire_id), Some(AbilityWireId(id::WHIRLWIND)));
    assert_eq!(bar.roll.map(|r| r.wire_id), lookup(AbilityWireId(id::EVASIVE_ROLL)).map(|r| r.wire_id));
    assert_eq!(bar.slots[0].unwrap().cooldown_ms, 500);
}

#[test]
fn projectile_counts_come_from_the_shape() {
    let count = |w: u8| lookup(AbilityWireId(w)).unwrap().projectile_count();
    assert_eq!(count(id::FIRE_BALL), 1);
    assert_eq!(count(id::FIREBALL_VOLLEY), 3);
    assert_eq!(count(id::RAPID_FIRE), 6);
    assert_eq!(count(id::ARCANE_FAN), 7);
    assert_eq!(count(id::WHIRLWIND), 0);
    assert_eq!(count(id::SUMMON_BRUTES), 0);
}

#[test]
fn abilities_resolve_by_string_id() {
    let row = lookup_by_id(AbilityId("frost_ray")).unwrap();
    assert_eq!(row.wire_id, AbilityWireId(id::FROST_RAY));
    assert!(lookup_by_id(AbilityId("no_such_ability")).is_none());
}

#[test]
fn ability_wire_id_round_trips_through_u8() {
    for b in [0u8, 1, 7, 128, 255] {
        assert_eq!(AbilityWireId::new(b).raw(), b);
        assert_eq!(u8::from(AbilityWireId::from(b)), b);
        assert_eq!(AbilityWireId::new(b), AbilityWireId(b));
    }
}

#[test]
fn hunter_tree_holds_the_authored_nodes() {
    let t = hunter_tree();
    assert_eq!(t.nodes.len(), 12);
    assert_eq!(t.unspent_points, 0);
    assert_eq!(t.total_spent, 0);
    let sharp = &t.nodes[0];
    assert_eq!(sharp.name, "Sharp Eyes");
    assert_eq!(sharp.max_rank, 3);
    assert!(matches!(sharp.effect, TalentEffect::PercentBonus { stat: TalentStat::CritChance, per_rank: 20 }));
    let rapid = &t.nodes[9];
    assert_eq!(rapid.prerequisites, vec![TalentId(4), TalentId(6)]);
    assert!(matches!(rapid.effect, TalentEffect::AbilityMod { modifier: AbilityModifier::CooldownReduction(2000), .. }));
    let storm = &t.nodes[11];
    assert_eq!(storm.name, "Arrow Storm");
    assert_eq!(storm.tier, 4);
    assert_eq!(storm.max_rank, 1);
    assert_eq!(storm.prerequisites, vec![TalentId(9)]);
    for (i, n) in t.nodes.iter().enumerate() {
        assert_eq!(n.id, TalentId(i as u32));
        assert_eq!(n.current_rank, 0);
    }
}

#[test]
fn checked_total_xp_matches_the_running_sum() {
    assert_eq!(checked_total_xp_for_level(0), Some(0));
    assert_eq!(checked_total_xp_for_level(1), Some(0));
    assert_eq!(checked_total_xp_for_level(2), Some(282));
    assert_eq!(checked_total_xp_for_level(3), Some(801));
    assert_eq!(checked_total_xp_for_level(1000), Some(total_xp_for_level(1000)));
    for level in 2..60u32 {
        assert_eq!(
            checked_total_xp_for_level(level),
            Some(total_xp_for_level(level - 1) + xp_for_level(level))
        );
    }
}

#[test]
fn granted_xp_stays_below_the_next_threshold() {
    let mut e = Experience::new();
    let rewards = e.grant_xp(50);
    assert!(rewards.is_empty());
    assert_eq!(e.level, 1);
    assert_eq!(e.current_xp, 50);
    assert!(e.current_xp < e.xp_to_next_level());
    let rewards = e.grant_xp(5000);
    assert!(!rewards.is_empty());
    assert!(e.current_xp < e.xp_to_next_level());
    e.set_xp_to_next(10);
    let rewards = e.grant_xp(25);
    assert!(!rewards.is_empty());
    assert!(e.server_xp_to_next.is_none());
    assert_eq!(e.xp_to_next_level(), xp_for_level(e.level + 1));
    assert!(e.current_xp < e.xp_to_next_level());
}

#[test]
fn xp_cost_strictly_increases_with_level() {
    assert_eq!(xp_for_level(1), 100);
    assert_eq!(xp_for_level(2), 282);
    assert_eq!(xp_for_level(3), 519);
    for level in 1..1000u32 {
        assert!(xp_for_level(level) < xp_for_level(level + 1));
    }
}

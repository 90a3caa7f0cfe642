use rift_game::loot::affixes::lookup;
use rift_game::loot::item::{Item, RolledAffix, RolledRiftTouched};
use rift_game::loot::items::{base_item, BASE_ITEM_COUNT};
use rift_game::loot::rarity::Rarity;
use rift_game::loot::rng::LootRng;
use rift_game::loot::tooltip::{requires_level_text, AffixStyle, TooltipKind, TooltipRow};
use rift_game::text::decimal_string;

fn item(base_id: &str, lines: &[&str]) -> Item {
    let base = (0..BASE_ITEM_COUNT).map(base_item).find(|b| b.id == base_id).unwrap();
    Item {
        base,
        rarity: Rarity::Rare,
        ilvl: 10,
        affixes: lines.iter().map(|id| RolledAffix { def: lookup(id).unwrap(), value_bits: 0 }).collect(),
        anchored: false,
        unstable: false,
        provenance: None,
        unique_id: None,
        unique_pick: None,
        rift_touched: None,
        enchanted_affix_index: None,
    }
}

fn plain(index: usize) -> TooltipRow {
    TooltipRow::Affix { index, style: AffixStyle::Plain }
}

#[test]
fn rare_helm_rows_are_grouped_into_blocks() {
    let it = item(
        "light_helm",
        &[
            "pct_cooldown",
            "flat_strength",
            "pct_fire_damage",
            "res_ice_damage",
            "pct_crit_chance",
            "flat_health",
            "amp_frost_ray_dmg",
        ],
    );
    let req = it.required_level();
    let expected = vec![
        TooltipRow::Name,
        TooltipRow::ItemLevel,
        TooltipRow::RequiresLevel { required: req },
        TooltipRow::Blank,
        TooltipRow::Implicit { index: 0 },
        TooltipRow::Implicit { index: 1 },
        TooltipRow::Blank,
        plain(1),
        plain(2),
        TooltipRow::Affix { index: 3, style: AffixStyle::Resonance },
        TooltipRow::Divider,
        plain(0),
        TooltipRow::Divider,
        plain(4),
        TooltipRow::Divider,
        plain(5),
        TooltipRow::Blank,
        plain(6),
    ];
    assert_eq!(it.tooltip_rows(), expected);
}

#[test]
fn procedural_legendary_lines_sit_in_the_banner() {
    let mut it = item("staff_basic", &["transform_frost_ray_shatter", "pct_crit_damage"]);
    it.rarity = Rarity::Legendary;
    let req = it.required_level();
    let rows = it.tooltip_rows();
    assert_eq!(
        rows,
        vec![
            TooltipRow::Name,
            TooltipRow::ItemLevel,
            TooltipRow::RequiresLevel { required: req },
            TooltipRow::BannerTop,
            TooltipRow::Affix { index: 0, style: AffixStyle::Legendary },
            TooltipRow::BannerBottom,
            TooltipRow::Blank,
            plain(1),
        ]
    );
    assert_eq!(rows[4].kind(), TooltipKind::Legendary);
    assert_eq!(rows[3].kind(), TooltipKind::LegendaryBannerEdge);
}

#[test]
fn unique_rows_show_subtitle_flags_effect_and_flavor() {
    let mut it = item("light_helm", &[]);
    it.rarity = Rarity::Legendary;
    it.unique_id = Some("embercrown");
    it.unstable = true;
    it.anchored = true;
    it.rift_touched = Some(RolledRiftTouched { def: lookup("rt_range").unwrap(), value_bits: 0, depth: 7 });
    let req = it.required_level();
    assert_eq!(
        it.tooltip_rows(),
        vec![
            TooltipRow::Name,
            TooltipRow::BaseName,
            TooltipRow::ItemLevel,
            TooltipRow::RequiresLevel { required: req },
            TooltipRow::Unstable,
            TooltipRow::Anchored,
            TooltipRow::BannerTop,
            TooltipRow::UniqueEffect,
            TooltipRow::UniqueFlavor,
            TooltipRow::BannerBottom,
            TooltipRow::Blank,
            TooltipRow::Implicit { index: 0 },
            TooltipRow::Implicit { index: 1 },
            TooltipRow::Blank,
            TooltipRow::RiftTouched,
        ]
    );
}

#[test]
fn bonus_only_item_opens_its_stat_block_with_a_blank() {
    let it = item("ring_basic", &["pct_attack_speed", "pct_evasion"]);
    let req = it.required_level();
    assert_eq!(
        it.tooltip_rows(),
        vec![
            TooltipRow::Name,
            TooltipRow::ItemLevel,
            TooltipRow::RequiresLevel { required: req },
            TooltipRow::Blank,
            plain(0),
            TooltipRow::Divider,
            plain(1),
        ]
    );
}

#[test]
fn tooltip_includes_requires_level_line() {
    let mut rng = LootRng::new(1);
    let base = (0..BASE_ITEM_COUNT).map(base_item).find(|b| b.id == "staff_basic").unwrap();
    let plan = Item::roll(&base, Rarity::Magic, 12, &mut rng);
    let values = vec![0u32; plan.lines.len()];
    let item = plan.into_item(values);
    let rows = item.tooltip_rows();
    let req = item.required_level();
    assert!(
        rows.iter().any(|r| *r == TooltipRow::RequiresLevel { required: req }),
        "tooltip missing `Requires Level {req}`; got {rows:?}",
    );
    assert_eq!(TooltipRow::RequiresLevel { required: req }.kind(), TooltipKind::RequiresLevel { required: req });
}

#[test]
fn header_texts_spell_name_and_levels() {
    let mut it = item("staff_basic", &[]);
    assert_eq!(it.display_name(), "Rare Apprentice Staff");
    assert_eq!(it.item_level_text(), "Item Level 10");
    it.anchored = true;
    assert_eq!(it.display_name(), "Anchored Rare Apprentice Staff");
    assert_eq!(requires_level_text(0), "Requires Level 0");
    assert_eq!(requires_level_text(120), "Requires Level 120");
    assert_eq!(decimal_string(0), "0");
    assert_eq!(decimal_string(7), "7");
    assert_eq!(decimal_string(1_000_000), "1000000");
    assert_eq!(decimal_string(u64::MAX), "18446744073709551615");
}

#[test]
fn archetype_line_joins_the_axis_block() {
    let it = item("staff_basic", &["flat_intellect", "pct_fire_damage", "pct_projectile_damage", "pct_crit_chance"]);
    let rows = it.tooltip_rows();
    let pos = |r: TooltipRow| rows.iter().position(|x| *x == r).unwrap();
    assert!(pos(plain(0)) < pos(plain(1)));
    assert!(pos(plain(1)) < pos(plain(2)));
    assert!(pos(plain(2)) < pos(plain(3)));
}

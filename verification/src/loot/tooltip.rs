//! Item tooltips: the typed row vocabulary, the parts of an item's
//! headline, and which rows a tooltip shows in which order.

use vstd::prelude::*;

use super::affixes::{
    category, is_legendary_effect, signature_count, spec_category, spec_is_legendary_effect,
    spec_signature_count, AffixCategory, AffixDef, AffixEffect,
};
use super::item::{spec_required_level, Item, RolledAffix};
use super::uniques::{find, spec_find_unique, spec_uniques, UniqueDef};
use crate::text::{labelled_number, spec_decimal};

verus! {

/// Semantic role of a single tooltip line.
#[derive(Clone, Copy, Debug, PartialEq, Eq, Structural)]
pub enum TooltipKind {
    /// Item name (first line), coloured by rarity downstream.
    Name,
    /// Plain stat / affix / implicit row.
    Stat,
    /// Blank spacer line.
    Blank,
    /// Thin divider between blocks.
    Divider,
    /// `Item Level N` header row.
    ItemLevel,
    /// `Requires Level N` header row.
    RequiresLevel { required: u32 },
    /// Legendary effect row inside the banner.
    Legendary,
    /// Top / bottom edge of the legendary banner.
    LegendaryBannerEdge,
    /// Flavour string inside the legendary banner.
    LegendaryFlavor,
    /// Resonance affix line.
    Resonance,
    /// Rift-touched memento line.
    RiftTouched,
    /// Anchored trait line.
    Anchored,
    /// Warning line (unstable rift loot).
    Warning,
    /// Synergy footer.
    Synergy,
}

/// The headline prefix: `Unstable` leads, then `Anchored`.
pub open spec fn spec_name_prefix(unstable: bool, anchored: bool) -> &'static str {
    if unstable {
        "Unstable "
    } else if anchored {
        "Anchored "
    } else {
        ""
    }
}

pub fn name_prefix(unstable: bool, anchored: bool) -> (r: &'static str)
    ensures
        r == spec_name_prefix(unstable, anchored),
{
    if unstable {
        "Unstable "
    } else if anchored {
        "Anchored "
    } else {
        ""
    }
}

impl Item {
    /// The parts of the display name: the prefix, then either the
    /// authored unique's name (`Some`) or, for a procedural item,
    /// `None` (the name is the rarity name and the base name).
    pub fn display_name_parts(&self) -> (r: (&'static str, Option<&'static str>))
        ensures
            r.0 == spec_name_prefix(self.unstable, self.anchored),
            r.1 == match self.unique_id {
                Some(id) => match spec_find_unique(spec_uniques(), id@, 0) {
                    Some(u) => Some(u.name),
                    None => None,
                },
                None => None,
            },
    {
        let prefix = name_prefix(self.unstable, self.anchored);
        let unique = match self.unique_id {
            Some(id) => match find(id) {
                Some(u) => Some(u.name),
                None => None,
            },
            None => None,
        };
        (prefix, unique)
    }

    /// The headline name: the prefix, then the authored unique's name,
    /// or for a procedural item the rarity name, a space and the base
    /// name.
    pub open spec fn spec_display_name(self) -> Seq<char> {
        let prefix = spec_name_prefix(self.unstable, self.anchored)@;
        match self.unique_id {
            Some(id) => match spec_find_unique(spec_uniques(), id@, 0) {
                Some(u) => prefix + u.name@,
                None => prefix + self.rarity.spec_name()@ + " "@ + self.base.name@,
            },
            None => prefix + self.rarity.spec_name()@ + " "@ + self.base.name@,
        }
    }

    /// The item's headline name.
    pub fn display_name(&self) -> (r: String)
        ensures
            r@ == self.spec_display_name(),
    {
        let (prefix, unique) = self.display_name_parts();
        let mut s = String::from_str(prefix);
        match unique {
            Some(name) => {
                s.append(name);
            },
            None => {
                s.append(self.rarity.name());
                s.append(" ");
                s.append(self.base.name);
            },
        }
        s
    }

    /// The `Item Level N` line.
    pub fn item_level_text(&self) -> (r: String)
        ensures
            r@ == "Item Level "@ + spec_decimal(self.ilvl as nat),
    {
        labelled_number("Item Level ", self.ilvl as u64)
    }
}

/// The `Requires Level N` line.
pub fn requires_level_text(required: u32) -> (r: String)
    ensures
        r@ == "Requires Level "@ + spec_decimal(required as nat),
{
    labelled_number("Requires Level ", required as u64)
}

/// How an affix row is drawn.
#[derive(Clone, Copy, Debug, PartialEq, Eq, Structural)]
pub enum AffixStyle {
    /// `★` line inside the legendary banner, without a roll band.
    Legendary,
    /// Plain stat row with its roll band.
    Plain,
    /// `◆` resonance row with its roll band.
    Resonance,
}

/// One row of an item tooltip, before any text is rendered: which
/// part of the item it shows, and how.
#[derive(Clone, Copy, Debug, PartialEq, Eq, Structural)]
pub enum TooltipRow {
    /// The display name.
    Name,
    /// `(base name)` under an authored unique's name.
    BaseName,
    /// `Item Level N`.
    ItemLevel,
    /// `Requires Level N`.
    RequiresLevel { required: u32 },
    /// The unstable-loot warning.
    Unstable,
    /// The anchored trait line.
    Anchored,
    /// Top edge of the legendary banner.
    BannerTop,
    /// The authored unique's effect.
    UniqueEffect,
    /// The authored unique's flavour text.
    UniqueFlavor,
    /// Bottom edge of the legendary banner.
    BannerBottom,
    /// Blank spacer.
    Blank,
    /// Block divider.
    Divider,
    /// The base item's implicit line `index`.
    Implicit { index: usize },
    /// The item's affix line `index`.
    Affix { index: usize, style: AffixStyle },
    /// The rift-touched memento line.
    RiftTouched,
}

impl TooltipRow {
    /// The semantic kind a rendered row carries.
    pub open spec fn spec_kind(self) -> TooltipKind {
        match self {
            TooltipRow::Name => TooltipKind::Name,
            TooltipRow::BaseName => TooltipKind::Stat,
            TooltipRow::ItemLevel => TooltipKind::ItemLevel,
            TooltipRow::RequiresLevel { required } => TooltipKind::RequiresLevel { required },
            TooltipRow::Unstable => TooltipKind::Warning,
            TooltipRow::Anchored => TooltipKind::Anchored,
            TooltipRow::BannerTop | TooltipRow::BannerBottom => TooltipKind::LegendaryBannerEdge,
            TooltipRow::UniqueEffect => TooltipKind::Legendary,
            TooltipRow::UniqueFlavor => TooltipKind::LegendaryFlavor,
            TooltipRow::Blank => TooltipKind::Blank,
            TooltipRow::Divider => TooltipKind::Divider,
            TooltipRow::Implicit { .. } => TooltipKind::Stat,
            TooltipRow::Affix { style, .. } => match style {
                AffixStyle::Legendary => TooltipKind::Legendary,
                AffixStyle::Plain => TooltipKind::Stat,
                AffixStyle::Resonance => TooltipKind::Resonance,
            },
            TooltipRow::RiftTouched => TooltipKind::RiftTouched,
        }
    }

    pub fn kind(&self) -> (r: TooltipKind)
        ensures
            r == self.spec_kind(),
    {
        match *self {
            TooltipRow::Name => TooltipKind::Name,
            TooltipRow::BaseName => TooltipKind::Stat,
            TooltipRow::ItemLevel => TooltipKind::ItemLevel,
            TooltipRow::RequiresLevel { required } => TooltipKind::RequiresLevel { required },
            TooltipRow::Unstable => TooltipKind::Warning,
            TooltipRow::Anchored => TooltipKind::Anchored,
            TooltipRow::BannerTop | TooltipRow::BannerBottom => TooltipKind::LegendaryBannerEdge,
            TooltipRow::UniqueEffect => TooltipKind::Legendary,
            TooltipRow::UniqueFlavor => TooltipKind::LegendaryFlavor,
            TooltipRow::Blank => TooltipKind::Blank,
            TooltipRow::Divider => TooltipKind::Divider,
            TooltipRow::Implicit { .. } => TooltipKind::Stat,
            TooltipRow::Affix { style, .. } => match style {
                AffixStyle::Legendary => TooltipKind::Legendary,
                AffixStyle::Plain => TooltipKind::Stat,
                AffixStyle::Resonance => TooltipKind::Resonance,
            },
            TooltipRow::RiftTouched => TooltipKind::RiftTouched,
        }
    }
}

/// Which affix lines a tooltip block takes.
#[derive(Clone, Copy, Debug, PartialEq, Eq, Structural)]
pub enum RowFilter {
    /// Everything but a legendary effect (the signature block).
    NotLegendary,
    /// Legendary effects (the procedural banner).
    Legendary,
    /// Resonance lines.
    Resonance,
    /// Bonus stat lines of the offensive group.
    OffensiveBonus,
    /// The other bonus stat lines.
    DefensiveBonus,
    /// Ability amplify / cooldown lines.
    AbilityTuning,
}

/// A stat line outside the damage axes (attribute, element, archetype,
/// resonance).
pub open spec fn spec_is_bonus_stat(d: AffixDef) -> bool {
    &&& d.effect is Stat
    &&& spec_category(d) != AffixCategory::Attribute
    &&& spec_category(d) != AffixCategory::Element
    &&& spec_category(d) != AffixCategory::Archetype
    &&& spec_category(d) != AffixCategory::Resonance
}

/// A stat line whose stat is in the offensive bonus group.
pub open spec fn spec_is_offensive_line(d: AffixDef) -> bool {
    match d.effect {
        AffixEffect::Stat(s) => s.spec_is_offensive_bonus(),
        _ => false,
    }
}

pub open spec fn spec_filter_matches(f: RowFilter, d: AffixDef) -> bool {
    match f {
        RowFilter::NotLegendary => !spec_is_legendary_effect(d.effect),
        RowFilter::Legendary => spec_is_legendary_effect(d.effect),
        RowFilter::Resonance => spec_category(d) == AffixCategory::Resonance,
        RowFilter::OffensiveBonus => spec_is_bonus_stat(d) && spec_is_offensive_line(d),
        RowFilter::DefensiveBonus => spec_is_bonus_stat(d) && !spec_is_offensive_line(d),
        RowFilter::AbilityTuning => d.effect is AmplifyAbilityDamage || d.effect is ReduceAbilityCooldown,
    }
}

fn filter_matches(f: RowFilter, d: &AffixDef) -> (r: bool)
    ensures
        r == spec_filter_matches(f, *d),
{
    match f {
        RowFilter::NotLegendary => !is_legendary_effect(&d.effect),
        RowFilter::Legendary => is_legendary_effect(&d.effect),
        RowFilter::Resonance => category(d) == AffixCategory::Resonance,
        RowFilter::OffensiveBonus | RowFilter::DefensiveBonus => {
            let c = category(d);
            let bonus = match d.effect {
                AffixEffect::Stat(_) => c != AffixCategory::Attribute && c != AffixCategory::Element
                    && c != AffixCategory::Archetype && c != AffixCategory::Resonance,
                _ => false,
            };
            let offensive = match d.effect {
                AffixEffect::Stat(s) => s.is_offensive_bonus(),
                _ => false,
            };
            match f {
                RowFilter::OffensiveBonus => bonus && offensive,
                _ => bonus && !offensive,
            }
        },
        RowFilter::AbilityTuning => match d.effect {
            AffixEffect::AmplifyAbilityDamage(_) | AffixEffect::ReduceAbilityCooldown(_) => true,
            _ => false,
        },
    }
}

/// Indices in `lo..hi`, in order, of the lines that pass `f`.
pub open spec fn spec_picked(s: Seq<RolledAffix>, lo: int, hi: int, f: RowFilter) -> Seq<usize>
    decreases hi - lo,
{
    if hi <= lo {
        Seq::empty()
    } else {
        let p = spec_picked(s, lo, hi - 1, f);
        if spec_filter_matches(f, s[hi - 1].def) {
            p.push((hi - 1) as usize)
        } else {
            p
        }
    }
}

/// The first index in `lo..hi` whose line is of category `cat`.
pub open spec fn spec_first_of(s: Seq<RolledAffix>, lo: int, hi: int, cat: AffixCategory) -> Option<usize>
    decreases hi - lo,
{
    if hi <= lo {
        None
    } else if spec_category(s[lo].def) == cat {
        Some(lo as usize)
    } else {
        spec_first_of(s, lo + 1, hi, cat)
    }
}

pub open spec fn spec_affix_rows(idx: Seq<usize>, style: AffixStyle) -> Seq<TooltipRow> {
    idx.map_values(|i: usize| TooltipRow::Affix { index: i, style })
}

pub open spec fn spec_opt_seq(o: Option<usize>) -> Seq<usize> {
    match o {
        Some(i) => seq![i],
        None => Seq::empty(),
    }
}

/// `rows` when `cond`, nothing otherwise.
pub open spec fn spec_when(cond: bool, rows: Seq<TooltipRow>) -> Seq<TooltipRow> {
    if cond {
        rows
    } else {
        Seq::empty()
    }
}

/// Name, unique subtitle, item level, required level, then the
/// unstable warning and the anchored line where they apply.
pub open spec fn spec_header_rows(item: Item) -> Seq<TooltipRow> {
    seq![TooltipRow::Name] + spec_when(item.unique_id is Some, seq![TooltipRow::BaseName]) + seq![
        TooltipRow::ItemLevel,
        TooltipRow::RequiresLevel { required: spec_required_level(item.ilvl, item.affixes@) },
    ] + spec_when(item.unstable, seq![TooltipRow::Unstable]) + spec_when(
        item.anchored,
        seq![TooltipRow::Anchored],
    )
}

/// The authored unique an item names, when its id resolves.
pub open spec fn spec_unique_of(item: Item) -> Option<UniqueDef> {
    match item.unique_id {
        Some(id) => spec_find_unique(spec_uniques(), id@, 0),
        None => None,
    }
}

/// The banner's body: a resolved unique's effect (and flavour, when it
/// has any); otherwise every legendary-effect affix line.
pub open spec fn spec_legendary_rows(item: Item) -> Seq<TooltipRow> {
    match spec_unique_of(item) {
        Some(u) => match u.spec_build(item.unique_pick) {
            Some(_) => seq![TooltipRow::UniqueEffect] + spec_when(u.flavor@.len() > 0, seq![TooltipRow::UniqueFlavor]),
            None => Seq::empty(),
        },
        None => spec_affix_rows(
            spec_picked(item.affixes@, 0, item.affixes@.len() as int, RowFilter::Legendary),
            AffixStyle::Legendary,
        ),
    }
}

pub open spec fn spec_banner_rows(item: Item) -> Seq<TooltipRow> {
    let l = spec_legendary_rows(item);
    spec_when(l.len() > 0, seq![TooltipRow::BannerTop] + l + seq![TooltipRow::BannerBottom])
}

pub open spec fn spec_implicit_rows(item: Item) -> Seq<TooltipRow> {
    let n = item.base.implicit@.len();
    spec_when(n > 0, seq![TooltipRow::Blank] + Seq::new(n, |i: int| TooltipRow::Implicit { index: i as usize }))
}

/// How many leading lines are the slot's signature lines.
pub open spec fn spec_sig_n(item: Item) -> int {
    let c = spec_signature_count(item.base.equip_slot) as int;
    let n = item.affixes@.len() as int;
    if c < n {
        c
    } else {
        n
    }
}

/// The damage-axis lines after the signatures: the first attribute
/// line, then the first element line, then the first archetype line.
pub open spec fn spec_axis(item: Item) -> Seq<usize> {
    let s = item.affixes@;
    spec_opt_seq(spec_first_of(s, spec_sig_n(item), s.len() as int, AffixCategory::Attribute)) + spec_opt_seq(
        spec_first_of(s, spec_sig_n(item), s.len() as int, AffixCategory::Element),
    ) + spec_opt_seq(spec_first_of(s, spec_sig_n(item), s.len() as int, AffixCategory::Archetype))
}

pub open spec fn spec_after_sig(item: Item, f: RowFilter) -> Seq<usize> {
    spec_picked(item.affixes@, spec_sig_n(item), item.affixes@.len() as int, f)
}

/// The axis block (after a blank), then the resonance lines (after a
/// blank when there was no axis block).
pub open spec fn spec_axis_rows(axis: Seq<usize>, res: Seq<usize>) -> Seq<TooltipRow> {
    spec_when(axis.len() > 0, seq![TooltipRow::Blank] + spec_affix_rows(axis, AffixStyle::Plain)) + spec_when(
        res.len() > 0,
        spec_when(axis.len() == 0, seq![TooltipRow::Blank]) + spec_affix_rows(res, AffixStyle::Resonance),
    )
}

/// The signature, offensive and defensive blocks: led by a divider
/// when damage-axis rows precede them (a blank otherwise), with a
/// divider between each two non-empty blocks.
pub open spec fn spec_stat_block_rows(
    after_axis: bool,
    sigs: Seq<usize>,
    off: Seq<usize>,
    def: Seq<usize>,
) -> Seq<TooltipRow> {
    spec_when(
        sigs.len() > 0 || off.len() > 0 || def.len() > 0,
        (if after_axis { seq![TooltipRow::Divider] } else { seq![TooltipRow::Blank] })
            + spec_affix_rows(sigs, AffixStyle::Plain)
            + spec_when(sigs.len() > 0 && (off.len() > 0 || def.len() > 0), seq![TooltipRow::Divider])
            + spec_affix_rows(off, AffixStyle::Plain)
            + spec_when(off.len() > 0 && def.len() > 0, seq![TooltipRow::Divider])
            + spec_affix_rows(def, AffixStyle::Plain),
    )
}

/// The stat body: the axis and resonance rows, then the signature,
/// offensive and defensive blocks.
pub open spec fn spec_body_rows(item: Item) -> Seq<TooltipRow> {
    let axis = spec_axis(item);
    let res = spec_after_sig(item, RowFilter::Resonance);
    spec_axis_rows(axis, res) + spec_stat_block_rows(
        axis.len() > 0 || res.len() > 0,
        spec_picked(item.affixes@, 0, spec_sig_n(item), RowFilter::NotLegendary),
        spec_after_sig(item, RowFilter::OffensiveBonus),
        spec_after_sig(item, RowFilter::DefensiveBonus),
    )
}

pub open spec fn spec_tuning_rows(item: Item) -> Seq<TooltipRow> {
    let t = spec_picked(item.affixes@, 0, item.affixes@.len() as int, RowFilter::AbilityTuning);
    spec_when(t.len() > 0, seq![TooltipRow::Blank] + spec_affix_rows(t, AffixStyle::Plain))
}

pub open spec fn spec_rift_rows(item: Item) -> Seq<TooltipRow> {
    spec_when(item.rift_touched is Some, seq![TooltipRow::Blank, TooltipRow::RiftTouched])
}

/// The whole tooltip, top to bottom, without the synergy footer.
pub open spec fn spec_tooltip_rows(item: Item) -> Seq<TooltipRow> {
    spec_header_rows(item) + spec_banner_rows(item) + spec_implicit_rows(item) + spec_body_rows(item)
        + spec_tuning_rows(item) + spec_rift_rows(item)
}


/// A row names a line the item has; a banner affix row is a legendary
/// effect, a plain affix row is not, and a resonance row is a resonance
/// line.
pub open spec fn spec_row_sound(item: Item, row: TooltipRow) -> bool {
    match row {
        TooltipRow::Affix { index, style } => {
            &&& index < item.affixes@.len()
            &&& match style {
                AffixStyle::Legendary => spec_is_legendary_effect(item.affixes@[index as int].def.effect),
                AffixStyle::Plain => !spec_is_legendary_effect(item.affixes@[index as int].def.effect),
                AffixStyle::Resonance => spec_category(item.affixes@[index as int].def) == AffixCategory::Resonance,
            }
        },
        TooltipRow::Implicit { index } => index < item.base.implicit@.len(),
        _ => true,
    }
}

pub open spec fn spec_rows_sound(item: Item, rows: Seq<TooltipRow>) -> bool {
    forall|k: int| 0 <= k < rows.len() ==> spec_row_sound(item, #[trigger] rows[k])
}

proof fn lemma_concat_sound(item: Item, a: Seq<TooltipRow>, b: Seq<TooltipRow>)
    requires
        spec_rows_sound(item, a),
        spec_rows_sound(item, b),
    ensures
        spec_rows_sound(item, a + b),
{
    assert forall|k: int| 0 <= k < (a + b).len() implies spec_row_sound(item, #[trigger] (a + b)[k]) by {
        if k < a.len() {
            assert((a + b)[k] == a[k]);
        } else {
            assert((a + b)[k] == b[k - a.len()]);
        }
    }
}

proof fn lemma_picked_members(s: Seq<RolledAffix>, lo: int, hi: int, f: RowFilter)
    requires
        0 <= lo,
        hi <= s.len(),
        hi <= usize::MAX,
    ensures
        forall|k: int| 0 <= k < spec_picked(s, lo, hi, f).len() ==> {
            let i = #[trigger] spec_picked(s, lo, hi, f)[k] as int;
            lo <= i < hi && spec_filter_matches(f, s[i].def)
        },
    decreases hi - lo,
{
    if hi > lo {
        lemma_picked_members(s, lo, hi - 1, f);
    }
}

proof fn lemma_first_of_member(s: Seq<RolledAffix>, lo: int, hi: int, cat: AffixCategory)
    requires
        0 <= lo,
        hi <= s.len(),
        hi <= usize::MAX,
    ensures
        spec_first_of(s, lo, hi, cat) matches Some(i) ==> lo <= i < hi && spec_category(s[i as int].def) == cat,
    decreases hi - lo,
{
    if hi > lo && spec_category(s[lo].def) != cat {
        lemma_first_of_member(s, lo + 1, hi, cat);
    }
}

proof fn lemma_affix_rows_sound(item: Item, idx: Seq<usize>, style: AffixStyle)
    requires
        forall|k: int| 0 <= k < idx.len() ==> spec_row_sound(item, TooltipRow::Affix { index: #[trigger] idx[k], style }),
    ensures
        spec_rows_sound(item, spec_affix_rows(idx, style)),
{
    assert forall|k: int| 0 <= k < spec_affix_rows(idx, style).len() implies spec_row_sound(
        item,
        #[trigger] spec_affix_rows(idx, style)[k],
    ) by {
        assert(spec_affix_rows(idx, style)[k] == TooltipRow::Affix { index: idx[k], style });
    }
}

/// Every affix or implicit row of a tooltip names a line the item
/// actually has, so rendering never indexes past the item; a legendary
/// effect is drawn only inside the legendary banner, never as a plain
/// stat row (so it is not printed twice); resonance rows are resonance
/// lines.
pub proof fn lemma_tooltip_rows_sound(item: Item)
    ensures
        spec_rows_sound(item, spec_tooltip_rows(item)),
{
    let s = item.affixes@;
    let n = s.len() as int;
    assert(item.affixes.len() == n);
    let sig = spec_sig_n(item);
    lemma_picked_members(s, 0, n, RowFilter::Legendary);
    lemma_picked_members(s, 0, n, RowFilter::AbilityTuning);
    lemma_picked_members(s, 0, sig, RowFilter::NotLegendary);
    lemma_picked_members(s, sig, n, RowFilter::Resonance);
    lemma_picked_members(s, sig, n, RowFilter::OffensiveBonus);
    lemma_picked_members(s, sig, n, RowFilter::DefensiveBonus);
    lemma_first_of_member(s, sig, n, AffixCategory::Attribute);
    lemma_first_of_member(s, sig, n, AffixCategory::Element);
    lemma_first_of_member(s, sig, n, AffixCategory::Archetype);

    let header = spec_header_rows(item);
    assert(spec_rows_sound(item, header));

    let leg = spec_legendary_rows(item);
    match spec_unique_of(item) {
        Some(u) => {},
        None => {
            lemma_affix_rows_sound(item, spec_picked(s, 0, n, RowFilter::Legendary), AffixStyle::Legendary);
        },
    }
    assert(spec_rows_sound(item, leg));
    let banner = spec_banner_rows(item);
    if leg.len() > 0 {
        lemma_concat_sound(item, seq![TooltipRow::BannerTop], leg);
        lemma_concat_sound(item, seq![TooltipRow::BannerTop] + leg, seq![TooltipRow::BannerBottom]);
    }
    assert(spec_rows_sound(item, banner));

    let m = item.base.implicit@.len();
    let imps = Seq::new(m, |i: int| TooltipRow::Implicit { index: i as usize });
    assert(spec_rows_sound(item, imps));
    if m > 0 {
        lemma_concat_sound(item, seq![TooltipRow::Blank], imps);
    }
    let implicit = spec_implicit_rows(item);
    assert(spec_rows_sound(item, implicit));

    let axis = spec_axis(item);
    assert forall|k: int| 0 <= k < axis.len() implies spec_row_sound(
        item,
        TooltipRow::Affix { index: #[trigger] axis[k], style: AffixStyle::Plain },
    ) by {}
    lemma_affix_rows_sound(item, axis, AffixStyle::Plain);
    let res = spec_after_sig(item, RowFilter::Resonance);
    lemma_affix_rows_sound(item, res, AffixStyle::Resonance);
    let sigs = spec_picked(s, 0, sig, RowFilter::NotLegendary);
    let off = spec_after_sig(item, RowFilter::OffensiveBonus);
    let def = spec_after_sig(item, RowFilter::DefensiveBonus);
    lemma_affix_rows_sound(item, sigs, AffixStyle::Plain);
    lemma_affix_rows_sound(item, off, AffixStyle::Plain);
    lemma_affix_rows_sound(item, def, AffixStyle::Plain);
    let ar = spec_affix_rows(axis, AffixStyle::Plain);
    let rr = spec_affix_rows(res, AffixStyle::Resonance);
    lemma_concat_sound(item, seq![TooltipRow::Blank], ar);
    lemma_concat_sound(item, seq![TooltipRow::Blank], rr);
    lemma_concat_sound(item, spec_when(axis.len() > 0, seq![TooltipRow::Blank] + ar), spec_when(
        res.len() > 0,
        spec_when(axis.len() == 0, seq![TooltipRow::Blank]) + rr,
    ));
    let lead: Seq<TooltipRow> = if axis.len() > 0 || res.len() > 0 { seq![TooltipRow::Divider] } else { seq![TooltipRow::Blank] };
    let d1 = spec_when(sigs.len() > 0 && (off.len() > 0 || def.len() > 0), seq![TooltipRow::Divider]);
    let d2 = spec_when(off.len() > 0 && def.len() > 0, seq![TooltipRow::Divider]);
    let sr = spec_affix_rows(sigs, AffixStyle::Plain);
    let or = spec_affix_rows(off, AffixStyle::Plain);
    let dr = spec_affix_rows(def, AffixStyle::Plain);
    assert(spec_rows_sound(item, lead));
    assert(spec_rows_sound(item, d1));
    assert(spec_rows_sound(item, d2));
    lemma_concat_sound(item, lead, sr);
    lemma_concat_sound(item, lead + sr, d1);
    lemma_concat_sound(item, lead + sr + d1, or);
    lemma_concat_sound(item, lead + sr + d1 + or, d2);
    lemma_concat_sound(item, lead + sr + d1 + or + d2, dr);
    let stat_block = spec_stat_block_rows(axis.len() > 0 || res.len() > 0, sigs, off, def);
    assert(spec_rows_sound(item, stat_block));
    let body = spec_body_rows(item);
    lemma_concat_sound(item, spec_axis_rows(axis, res), stat_block);
    assert(spec_rows_sound(item, body));

    let t = spec_picked(s, 0, n, RowFilter::AbilityTuning);
    lemma_affix_rows_sound(item, t, AffixStyle::Plain);
    lemma_concat_sound(item, seq![TooltipRow::Blank], spec_affix_rows(t, AffixStyle::Plain));
    let tuning = spec_tuning_rows(item);
    assert(spec_rows_sound(item, tuning));
    let rift = spec_rift_rows(item);
    assert(spec_rows_sound(item, rift));

    lemma_concat_sound(item, header, banner);
    lemma_concat_sound(item, header + banner, implicit);
    lemma_concat_sound(item, header + banner + implicit, body);
    lemma_concat_sound(item, header + banner + implicit + body, tuning);
    lemma_concat_sound(item, header + banner + implicit + body + tuning, rift);
}

/// Indices in `lo..hi` of the lines of `s` that pass `f`.
fn picked(s: &Vec<RolledAffix>, lo: usize, hi: usize, f: RowFilter) -> (r: Vec<usize>)
    requires
        lo <= hi <= s@.len(),
    ensures
        r@ == spec_picked(s@, lo as int, hi as int, f),
{
    let mut r: Vec<usize> = Vec::new();
    let mut i: usize = lo;
    while i < hi
        invariant
            lo <= i <= hi <= s@.len(),
            r@ == spec_picked(s@, lo as int, i as int, f),
        decreases hi - i,
    {
        if filter_matches(f, &s[i].def) {
            r.push(i);
        }
        i = i + 1;
    }
    r
}

fn first_of(s: &Vec<RolledAffix>, lo: usize, hi: usize, cat: AffixCategory) -> (r: Option<usize>)
    requires
        lo <= hi <= s@.len(),
    ensures
        r == spec_first_of(s@, lo as int, hi as int, cat),
{
    let mut i: usize = lo;
    while i < hi
        invariant
            lo <= i <= hi <= s@.len(),
            spec_first_of(s@, lo as int, hi as int, cat) == spec_first_of(s@, i as int, hi as int, cat),
        decreases hi - i,
    {
        if category(&s[i].def) == cat {
            return Some(i);
        }
        i = i + 1;
    }
    None
}

/// Append one affix row per index.
fn push_affix_rows(out: &mut Vec<TooltipRow>, idx: &Vec<usize>, style: AffixStyle)
    ensures
        final(out)@ == old(out)@ + spec_affix_rows(idx@, style),
{
    let ghost start = out@;
    let mut k: usize = 0;
    while k < idx.len()
        invariant
            k <= idx@.len(),
            out@ == start + spec_affix_rows(idx@.take(k as int), style),
        decreases idx@.len() - k,
    {
        out.push(TooltipRow::Affix { index: idx[k], style });
        proof {
            assert(idx@.take(k as int + 1) == idx@.take(k as int).push(idx@[k as int]));
        }
        k = k + 1;
    }
    proof {
        assert(idx@.take(idx@.len() as int) == idx@);
    }
}

fn axis_rows(axis: &Vec<usize>, res: &Vec<usize>) -> (r: Vec<TooltipRow>)
    ensures
        r@ == spec_axis_rows(axis@, res@),
{
    let mut out: Vec<TooltipRow> = Vec::new();
    if axis.len() > 0 {
        out.push(TooltipRow::Blank);
        push_affix_rows(&mut out, axis, AffixStyle::Plain);
    }
    let mut tail: Vec<TooltipRow> = Vec::new();
    if res.len() > 0 {
        if axis.len() == 0 {
            tail.push(TooltipRow::Blank);
        }
        push_affix_rows(&mut tail, res, AffixStyle::Resonance);
    }
    out.append(&mut tail);
    out
}

fn stat_block_rows(after_axis: bool, sigs: &Vec<usize>, off: &Vec<usize>, def: &Vec<usize>) -> (r: Vec<TooltipRow>)
    ensures
        r@ == spec_stat_block_rows(after_axis, sigs@, off@, def@),
{
    let mut out: Vec<TooltipRow> = Vec::new();
    if sigs.len() > 0 || off.len() > 0 || def.len() > 0 {
        if after_axis {
            out.push(TooltipRow::Divider);
        } else {
            out.push(TooltipRow::Blank);
        }
        push_affix_rows(&mut out, sigs, AffixStyle::Plain);
        if sigs.len() > 0 && (off.len() > 0 || def.len() > 0) {
            out.push(TooltipRow::Divider);
        }
        push_affix_rows(&mut out, off, AffixStyle::Plain);
        if off.len() > 0 && def.len() > 0 {
            out.push(TooltipRow::Divider);
        }
        push_affix_rows(&mut out, def, AffixStyle::Plain);
    }
    out
}

impl Item {
    fn header_rows(&self) -> (r: Vec<TooltipRow>)
        ensures
            r@ == spec_header_rows(*self),
    {
        let mut out: Vec<TooltipRow> = Vec::new();
        out.push(TooltipRow::Name);
        if self.unique_id.is_some() {
            out.push(TooltipRow::BaseName);
        }
        out.push(TooltipRow::ItemLevel);
        let required = self.required_level();
        out.push(TooltipRow::RequiresLevel { required });
        if self.unstable {
            out.push(TooltipRow::Unstable);
        }
        if self.anchored {
            out.push(TooltipRow::Anchored);
        }
        out
    }

    fn banner_rows(&self) -> (r: Vec<TooltipRow>)
        ensures
            r@ == spec_banner_rows(*self),
    {
        let mut body: Vec<TooltipRow> = Vec::new();
        let unique = match self.unique_id {
            Some(id) => find(id),
            None => None,
        };
        match unique {
            Some(u) => {
                if u.build(self.unique_pick).is_some() {
                    body.push(TooltipRow::UniqueEffect);
                    if !u.flavor.is_empty() {
                        body.push(TooltipRow::UniqueFlavor);
                    }
                }
            },
            None => {
                let idx = picked(&self.affixes, 0, self.affixes.len(), RowFilter::Legendary);
                push_affix_rows(&mut body, &idx, AffixStyle::Legendary);
            },
        }
        let mut out: Vec<TooltipRow> = Vec::new();
        if body.len() > 0 {
            out.push(TooltipRow::BannerTop);
            out.append(&mut body);
            out.push(TooltipRow::BannerBottom);
        }
        out
    }

    fn implicit_rows(&self) -> (r: Vec<TooltipRow>)
        ensures
            r@ == spec_implicit_rows(*self),
    {
        let n = self.base.implicit.len();
        let mut out: Vec<TooltipRow> = Vec::new();
        if n > 0 {
            out.push(TooltipRow::Blank);
            let mut i: usize = 0;
            while i < n
                invariant
                    n == self.base.implicit@.len(),
                    i <= n,
                    out@ == seq![TooltipRow::Blank] + Seq::new(i as nat, |j: int| TooltipRow::Implicit { index: j as usize }),
                decreases n - i,
            {
                out.push(TooltipRow::Implicit { index: i });
                i = i + 1;
            }
        }
        out
    }

    fn body_rows(&self) -> (r: Vec<TooltipRow>)
        ensures
            r@ == spec_body_rows(*self),
    {
        let len = self.affixes.len();
        let c = signature_count(self.base.equip_slot);
        let sig_n = if c < len { c } else { len };
        let mut axis: Vec<usize> = Vec::new();
        match first_of(&self.affixes, sig_n, len, AffixCategory::Attribute) {
            Some(i) => axis.push(i),
            None => {},
        }
        match first_of(&self.affixes, sig_n, len, AffixCategory::Element) {
            Some(i) => axis.push(i),
            None => {},
        }
        match first_of(&self.affixes, sig_n, len, AffixCategory::Archetype) {
            Some(i) => axis.push(i),
            None => {},
        }
        proof {
            assert(axis@ == spec_axis(*self));
        }
        let res = picked(&self.affixes, sig_n, len, RowFilter::Resonance);
        let sigs = picked(&self.affixes, 0, sig_n, RowFilter::NotLegendary);
        let off = picked(&self.affixes, sig_n, len, RowFilter::OffensiveBonus);
        let def = picked(&self.affixes, sig_n, len, RowFilter::DefensiveBonus);
        let mut out = axis_rows(&axis, &res);
        let mut rest = stat_block_rows(axis.len() > 0 || res.len() > 0, &sigs, &off, &def);
        out.append(&mut rest);
        out
    }

    fn tuning_rows(&self) -> (r: Vec<TooltipRow>)
        ensures
            r@ == spec_tuning_rows(*self),
    {
        let t = picked(&self.affixes, 0, self.affixes.len(), RowFilter::AbilityTuning);
        let mut out: Vec<TooltipRow> = Vec::new();
        if t.len() > 0 {
            out.push(TooltipRow::Blank);
            push_affix_rows(&mut out, &t, AffixStyle::Plain);
        }
        out
    }

    /// The tooltip's rows, top to bottom: header, legendary banner,
    /// implicits, the stat body (axis lines, resonance, signatures,
    /// offensive and defensive bonus lines), ability tuning lines and
    /// the rift-touched memento. The synergy footer, which depends on
    /// a loadout, follows them.
    pub fn tooltip_rows(&self) -> (r: Vec<TooltipRow>)
        ensures
            r@ == spec_tooltip_rows(*self),
    {
        let mut out = self.header_rows();
        let mut banner = self.banner_rows();
        out.append(&mut banner);
        let mut implicit = self.implicit_rows();
        out.append(&mut implicit);
        let mut body = self.body_rows();
        out.append(&mut body);
        let mut tuning = self.tuning_rows();
        out.append(&mut tuning);
        if self.rift_touched.is_some() {
            out.push(TooltipRow::Blank);
            out.push(TooltipRow::RiftTouched);
        }
        proof {
            assert(out@ == spec_tooltip_rows(*self));
        }
        out
    }
}

} // verus!

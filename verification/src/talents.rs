//! The Hunter's talent tree — pure content: which nodes exist, their
//! ranks, tiers, prerequisites and effects. Percentages and seconds are
//! written in thousandths.

use vstd::prelude::*;

use crate::abilities::AbilityId;

verus! {

/// Stable talent identifier: the node's position in its tree.
#[derive(Clone, Copy, Debug, PartialEq, Eq, Hash, Structural)]
pub struct TalentId(pub u32);

/// The character stat a percent talent raises.
#[derive(Clone, Copy, Debug, PartialEq, Eq, Structural)]
pub enum TalentStat {
    CritChance,
    Damage,
    MoveSpeed,
    CritDamage,
    AttackSpeed,
    Range,
    Defense,
}

/// How a talent changes one ability, per rank.
#[derive(Clone, Copy, Debug, PartialEq, Eq, Structural)]
pub enum AbilityModifier {
    /// Extra projectiles.
    ExtraProjectiles(u32),
    /// Extra targets pierced.
    Pierce(u32),
    /// Cooldown reduction, in thousandths of a second.
    CooldownReduction(u32),
    /// Extra chain targets.
    Chain(u32),
    /// Damage bonus, in thousandths.
    DamageBonus(u32),
}

/// What a talent does per rank.
#[derive(Clone, Copy, Debug)]
pub enum TalentEffect {
    /// Raise a stat by `per_rank` thousandths per rank.
    PercentBonus { stat: TalentStat, per_rank: u32 },
    /// Modify one ability.
    AbilityMod { ability: AbilityId, modifier: AbilityModifier },
}

/// One node of a talent tree.
#[derive(Clone, Debug)]
pub struct TalentNode {
    pub id: TalentId,
    pub name: &'static str,
    pub description: &'static str,
    pub max_rank: u32,
    pub current_rank: u32,
    /// Tier `t` needs `5 * t` points spent in the tree.
    pub tier: u32,
    pub prerequisites: Vec<TalentId>,
    pub effect: TalentEffect,
}

/// A node as plain values: its fields, with the prerequisites as a
/// sequence.
pub struct TalentNodeView {
    pub id: TalentId,
    pub name: &'static str,
    pub description: &'static str,
    pub max_rank: u32,
    pub current_rank: u32,
    pub tier: u32,
    pub prerequisites: Seq<TalentId>,
    pub effect: TalentEffect,
}

impl View for TalentNode {
    type V = TalentNodeView;

    open spec fn view(&self) -> TalentNodeView {
        TalentNodeView {
            id: self.id,
            name: self.name,
            description: self.description,
            max_rank: self.max_rank,
            current_rank: self.current_rank,
            tier: self.tier,
            prerequisites: self.prerequisites@,
            effect: self.effect,
        }
    }
}

/// A class's talent tree and its point budget.
#[derive(Clone, Debug)]
pub struct TalentTree {
    pub nodes: Vec<TalentNode>,
    pub unspent_points: u32,
    pub total_spent: u32,
}

/// The structure every authored tree keeps: node `i` has id `i`, at
/// least one rank and none taken, and its prerequisites are nodes of a
/// lower tier.
pub open spec fn spec_tree_well_formed(nodes: Seq<TalentNode>) -> bool {
    forall|i: int|
        0 <= i < nodes.len() ==> {
            &&& (#[trigger] nodes[i]).id == TalentId(i as u32)
            &&& nodes[i].max_rank >= 1
            &&& nodes[i].current_rank == 0
            &&& forall|k: int|
                0 <= k < nodes[i].prerequisites@.len() ==> {
                    let p = (#[trigger] nodes[i].prerequisites@[k]).0 as int;
                    0 <= p < nodes.len() && nodes[p].tier < nodes[i].tier
                }
        }
}

/// An unranked node.
pub open spec fn spec_node(
    id: u32,
    name: &'static str,
    description: &'static str,
    max_rank: u32,
    tier: u32,
    prerequisites: Seq<TalentId>,
    effect: TalentEffect,
) -> TalentNodeView {
    TalentNodeView { id: TalentId(id), name, description, max_rank, current_rank: 0, tier, prerequisites, effect }
}

/// The Hunter's twelve nodes, in id order.
pub open spec fn spec_hunter_nodes() -> Seq<TalentNodeView> {
    seq![
        spec_node(0, "Sharp Eyes", "+2% crit chance per rank.", 3, 0, seq![],
            TalentEffect::PercentBonus { stat: TalentStat::CritChance, per_rank: 20 }),
        spec_node(1, "Steady Aim", "+4% damage per rank.", 3, 0, seq![],
            TalentEffect::PercentBonus { stat: TalentStat::Damage, per_rank: 40 }),
        spec_node(2, "Fleet Footed", "+3% movement speed per rank.", 3, 0, seq![],
            TalentEffect::PercentBonus { stat: TalentStat::MoveSpeed, per_rank: 30 }),
        spec_node(3, "Deadly Draw", "+15% crit damage per rank.", 3, 1, seq![TalentId(0)],
            TalentEffect::PercentBonus { stat: TalentStat::CritDamage, per_rank: 150 }),
        spec_node(4, "Quick Fingers", "+5% attack speed per rank.", 3, 1, seq![TalentId(1)],
            TalentEffect::PercentBonus { stat: TalentStat::AttackSpeed, per_rank: 50 }),
        spec_node(5, "Long Range", "+10% projectile range per rank.", 2, 1, seq![TalentId(1)],
            TalentEffect::PercentBonus { stat: TalentStat::Range, per_rank: 100 }),
        spec_node(6, "Multi-Shot Mastery", "Multi-Shot fires +1 arrow per rank.", 2, 2, seq![TalentId(4)],
            TalentEffect::AbilityMod { ability: AbilityId("multi_shot"), modifier: AbilityModifier::ExtraProjectiles(1) }),
        spec_node(7, "Piercing Arrows", "Arrows pierce through 1 additional target per rank.", 2, 2, seq![TalentId(3)],
            TalentEffect::AbilityMod { ability: AbilityId("steady_shot"), modifier: AbilityModifier::Pierce(1) }),
        spec_node(8, "Thick Skin", "+5% defense per rank.", 3, 2, seq![TalentId(2)],
            TalentEffect::PercentBonus { stat: TalentStat::Defense, per_rank: 50 }),
        spec_node(9, "Rapid Fire Mastery", "Rapid Fire cooldown reduced by 2s per rank.", 2, 3,
            seq![TalentId(4), TalentId(6)],
            TalentEffect::AbilityMod { ability: AbilityId("rapid_fire"), modifier: AbilityModifier::CooldownReduction(2000) }),
        spec_node(10, "Death Mark", "Mark for Death also chains to 1 nearby enemy per rank.", 2, 3, seq![TalentId(7)],
            TalentEffect::AbilityMod { ability: AbilityId("mark_for_death"), modifier: AbilityModifier::Chain(1) }),
        spec_node(11, "Arrow Storm", "Rain of Arrows fires +4 arrows and deals +20% damage per rank.", 1, 4,
            seq![TalentId(9)],
            TalentEffect::AbilityMod { ability: AbilityId("rain_of_arrows"), modifier: AbilityModifier::DamageBonus(200) }),
    ]
}

fn node(
    id: u32,
    name: &'static str,
    description: &'static str,
    max_rank: u32,
    tier: u32,
    prerequisites: Vec<TalentId>,
    effect: TalentEffect,
) -> (r: TalentNode)
    ensures
        r@ == spec_node(id, name, description, max_rank, tier, prerequisites@, effect),
{
    TalentNode { id: TalentId(id), name, description, max_rank, current_rank: 0, tier, prerequisites, effect }
}

fn percent(stat: TalentStat, per_rank: u32) -> (r: TalentEffect)
    ensures
        r == (TalentEffect::PercentBonus { stat, per_rank }),
{
    TalentEffect::PercentBonus { stat, per_rank }
}

fn ability_mod(ability: &'static str, modifier: AbilityModifier) -> (r: TalentEffect)
    ensures
        r == (TalentEffect::AbilityMod { ability: AbilityId(ability), modifier }),
{
    TalentEffect::AbilityMod { ability: AbilityId(ability), modifier }
}

/// The Hunter's tree: the twelve nodes of `spec_hunter_nodes` over five
/// tiers, with no points spent. Tier 0 raises crit chance, damage and
/// move speed; later tiers build on them up to Arrow Storm.
pub fn hunter_tree() -> (t: TalentTree)
    ensures
        t.nodes@.len() == spec_hunter_nodes().len(),
        forall|i: int| 0 <= i < t.nodes@.len() ==> (#[trigger] t.nodes@[i])@ == spec_hunter_nodes()[i],
        spec_tree_well_formed(t.nodes@),
        t.unspent_points == 0,
        t.total_spent == 0,
{
    let mut nodes: Vec<TalentNode> = Vec::new();
    nodes.push(node(0, "Sharp Eyes", "+2% crit chance per rank.", 3, 0, vec![], percent(TalentStat::CritChance, 20)));
    nodes.push(node(1, "Steady Aim", "+4% damage per rank.", 3, 0, vec![], percent(TalentStat::Damage, 40)));
    nodes.push(node(2, "Fleet Footed", "+3% movement speed per rank.", 3, 0, vec![], percent(TalentStat::MoveSpeed, 30)));
    nodes.push(node(3, "Deadly Draw", "+15% crit damage per rank.", 3, 1, vec![TalentId(0)], percent(TalentStat::CritDamage, 150)));
    nodes.push(node(4, "Quick Fingers", "+5% attack speed per rank.", 3, 1, vec![TalentId(1)], percent(TalentStat::AttackSpeed, 50)));
    nodes.push(node(5, "Long Range", "+10% projectile range per rank.", 2, 1, vec![TalentId(1)], percent(TalentStat::Range, 100)));
    nodes.push(node(
        6,
        "Multi-Shot Mastery",
        "Multi-Shot fires +1 arrow per rank.",
        2,
        2,
        vec![TalentId(4)],
        ability_mod("multi_shot", AbilityModifier::ExtraProjectiles(1)),
    ));
    nodes.push(node(
        7,
        "Piercing Arrows",
        "Arrows pierce through 1 additional target per rank.",
        2,
        2,
        vec![TalentId(3)],
        ability_mod("steady_shot", AbilityModifier::Pierce(1)),
    ));
    nodes.push(node(8, "Thick Skin", "+5% defense per rank.", 3, 2, vec![TalentId(2)], percent(TalentStat::Defense, 50)));
    nodes.push(node(
        9,
        "Rapid Fire Mastery",
        "Rapid Fire cooldown reduced by 2s per rank.",
        2,
        3,
        vec![TalentId(4), TalentId(6)],
        ability_mod("rapid_fire", AbilityModifier::CooldownReduction(2000)),
    ));
    nodes.push(node(
        10,
        "Death Mark",
        "Mark for Death also chains to 1 nearby enemy per rank.",
        2,
        3,
        vec![TalentId(7)],
        ability_mod("mark_for_death", AbilityModifier::Chain(1)),
    ));
    nodes.push(node(
        11,
        "Arrow Storm",
        "Rain of Arrows fires +4 arrows and deals +20% damage per rank.",
        1,
        4,
        vec![TalentId(9)],
        ability_mod("rain_of_arrows", AbilityModifier::DamageBonus(200)),
    ));
    proof {
        let n = nodes@;
        assert forall|i: int| 0 <= i < n.len() implies {
            &&& (#[trigger] n[i]).id == TalentId(i as u32)
            &&& n[i].max_rank >= 1
            &&& n[i].current_rank == 0
            &&& forall|k: int|
                0 <= k < n[i].prerequisites@.len() ==> {
                    let p = (#[trigger] n[i].prerequisites@[k]).0 as int;
                    0 <= p < n.len() && n[p].tier < n[i].tier
                }
        } by {
            assert(n[i].id == TalentId(i as u32));
        }
        assert(n.len() == spec_hunter_nodes().len());
        assert forall|i: int| 0 <= i < n.len() implies (#[trigger] n[i])@ == spec_hunter_nodes()[i] by {
            assert(n[i]@.prerequisites =~= spec_hunter_nodes()[i].prerequisites);
        }
    }
    TalentTree { nodes, unspent_points: 0, total_spent: 0 }
}

} // verus!

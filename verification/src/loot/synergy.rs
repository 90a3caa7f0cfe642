//! Which slotted abilities an item's affixes benefit (the tooltip's
//! synergy footer).

use vstd::prelude::*;

use crate::abilities::{lookup, spec_lookup, AbilityRow, Archetype, Element};
use crate::loadout::Loadout;
use crate::stats::Stat;
use super::affixes::{AffixDef, AffixEffect};
use super::item::Item;

verus! {

/// How an affix relates to a slotted ability.
#[derive(Clone, Copy, Debug)]
pub enum SynergyLink {
    /// An element (or archetype) damage line boosts every slotted
    /// ability of that element (or archetype); the label names it.
    Boosts(&'static str),
    /// An ability-targeted affix affects that ability.
    Affects,
}

/// One footer entry: an affix's link to the ability in action-bar slot
/// `slot` (0-based).
#[derive(Clone, Copy, Debug)]
pub struct SynergyHit {
    pub link: SynergyLink,
    pub ability_name: &'static str,
    pub slot: usize,
}

/// What a damage stat boosts: the abilities of an element, or of an
/// archetype.
#[derive(Clone, Copy, Debug)]
pub enum BoostTarget {
    Element(Element),
    Archetype(Archetype),
}

/// Whether an ability row is what a boost targets.
pub open spec fn spec_boost_matches(t: BoostTarget, row: AbilityRow) -> bool {
    match t {
        BoostTarget::Element(e) => row.element == e,
        BoostTarget::Archetype(a) => row.archetype == a,
    }
}

fn boost_matches(t: BoostTarget, row: &AbilityRow) -> (r: bool)
    ensures
        r == spec_boost_matches(t, *row),
{
    match t {
        BoostTarget::Element(e) => row.element == e,
        BoostTarget::Archetype(a) => row.archetype == a,
    }
}

/// What a damage stat boosts, with its label.
pub open spec fn spec_element_boost(s: Stat) -> Option<(&'static str, BoostTarget)> {
    match s {
        Stat::PhysicalDamage => Some(("Physical", BoostTarget::Element(Element::Physical))),
        Stat::FireDamage => Some(("Fire", BoostTarget::Element(Element::Fire))),
        Stat::IceDamage => Some(("Ice", BoostTarget::Element(Element::Ice))),
        Stat::LightningDamage => Some(("Lightning", BoostTarget::Element(Element::Lightning))),
        Stat::ProjectileDamage => Some(("Projectile", BoostTarget::Archetype(Archetype::Projectile))),
        Stat::MeleeDamage => Some(("Melee", BoostTarget::Archetype(Archetype::Melee))),
        _ => None,
    }
}

fn element_boost(s: Stat) -> (r: Option<(&'static str, BoostTarget)>)
    ensures
        r == spec_element_boost(s),
{
    match s {
        Stat::PhysicalDamage => Some(("Physical", BoostTarget::Element(Element::Physical))),
        Stat::FireDamage => Some(("Fire", BoostTarget::Element(Element::Fire))),
        Stat::IceDamage => Some(("Ice", BoostTarget::Element(Element::Ice))),
        Stat::LightningDamage => Some(("Lightning", BoostTarget::Element(Element::Lightning))),
        Stat::ProjectileDamage => Some(("Projectile", BoostTarget::Archetype(Archetype::Projectile))),
        Stat::MeleeDamage => Some(("Melee", BoostTarget::Archetype(Archetype::Melee))),
        _ => None,
    }
}

/// The entry an affix gives for the ability `row` in slot `slot`, if
/// any: element and archetype lines boost abilities of their element
/// or archetype; amplify,
/// cooldown, extra-projectile and transform lines affect their target
/// ability.
pub open spec fn spec_hit(a: AffixDef, slot: int, row: AbilityRow) -> Option<SynergyHit> {
    match a.effect {
        AffixEffect::Stat(s) => match spec_element_boost(s) {
            Some((label, t)) => if spec_boost_matches(t, row) {
                Some(SynergyHit { link: SynergyLink::Boosts(label), ability_name: row.name, slot: slot as usize })
            } else {
                None
            },
            None => None,
        },
        AffixEffect::AmplifyAbilityDamage(id) | AffixEffect::ReduceAbilityCooldown(id)
        | AffixEffect::ExtraProjectiles(id) | AffixEffect::TransformAbility(id, _) => if row.id.0@ == id.0@ {
            Some(SynergyHit { link: SynergyLink::Affects, ability_name: row.name, slot: slot as usize })
        } else {
            None
        },
        AffixEffect::Proc(_, _) => None,
    }
}

/// An affix's entries over the first `k` action-bar slots, in slot order
/// (empty or unknown slots give none).
pub open spec fn spec_hits_upto(a: AffixDef, l: Loadout, k: int) -> Seq<SynergyHit>
    decreases k,
{
    if k <= 0 {
        seq![]
    } else {
        let prev = spec_hits_upto(a, l, k - 1);
        match spec_lookup(l.slots@[k - 1]) {
            Some(row) => match spec_hit(a, k - 1, row) {
                Some(h) => prev.push(h),
                None => prev,
            },
            None => prev,
        }
    }
}

/// The footer entries of a list of affixes: each affix's entries over
/// the six slots, affix by affix.
pub open spec fn spec_synergy(affixes: Seq<super::item::RolledAffix>, l: Loadout) -> Seq<SynergyHit>
    decreases affixes.len(),
{
    if affixes.len() == 0 {
        seq![]
    } else {
        spec_synergy(affixes.drop_last(), l) + spec_hits_upto(affixes.last().def, l, 6)
    }
}

fn hit(a: &AffixDef, slot: usize, row: &AbilityRow) -> (r: Option<SynergyHit>)
    ensures
        r == spec_hit(*a, slot as int, *row),
{
    match a.effect {
        AffixEffect::Stat(s) => match element_boost(s) {
            Some((label, t)) => if boost_matches(t, row) {
                Some(SynergyHit { link: SynergyLink::Boosts(label), ability_name: row.name, slot })
            } else {
                None
            },
            None => None,
        },
        AffixEffect::AmplifyAbilityDamage(id) | AffixEffect::ReduceAbilityCooldown(id)
        | AffixEffect::ExtraProjectiles(id) | AffixEffect::TransformAbility(id, _) => if crate::text::str_eq(
            row.id.0,
            id.0,
        ) {
            Some(SynergyHit { link: SynergyLink::Affects, ability_name: row.name, slot })
        } else {
            None
        },
        AffixEffect::Proc(_, _) => None,
    }
}

impl Item {
    /// The synergy footer of this item against an action-bar loadout:
    /// for each affix in order, one entry per slotted ability it boosts
    /// or affects, in slot order.
    pub fn synergy_against(&self, loadout: &Loadout) -> (r: Vec<SynergyHit>)
        ensures
            r@ == spec_synergy(self.affixes@, *loadout),
    {
        let mut out: Vec<SynergyHit> = Vec::new();
        let mut i: usize = 0;
        while i < self.affixes.len()
            invariant
                i <= self.affixes@.len(),
                out@ == spec_synergy(self.affixes@.take(i as int), *loadout),
            decreases self.affixes@.len() - i,
        {
            let a = self.affixes[i].def;
            let ghost start = out@;
            let mut k: usize = 0;
            while k < 6
                invariant
                    k <= 6,
                    out@ == start + spec_hits_upto(a, *loadout, k as int),
                decreases 6 - k,
            {
                let ghost before = out@;
                match lookup(loadout.slots[k]) {
                    Some(row) => match hit(&a, k, &row) {
                        Some(h) => {
                            out.push(h);
                        },
                        None => {},
                    },
                    None => {},
                }
                proof {
                    assert(loadout.slots@[k as int] == loadout.slots[k as int]);
                    assert(out@ =~= start + spec_hits_upto(a, *loadout, k + 1));
                }
                k = k + 1;
            }
            proof {
                let t = self.affixes@.take(i + 1);
                assert(t.drop_last() =~= self.affixes@.take(i as int));
                assert(t.last() == self.affixes@[i as int]);
            }
            i = i + 1;
        }
        proof {
            assert(self.affixes@.take(self.affixes@.len() as int) =~= self.affixes@);
        }
        out
    }
}

} // verus!

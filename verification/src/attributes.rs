//! Player attributes (Agility / Strength / Intellect / Vitality) and
//! the point-spend rule.

use vstd::prelude::*;

verus! {

/// Core attribute types.
#[derive(Clone, Copy, Debug, PartialEq, Eq, Hash, Structural)]
pub enum AttributeType {
    /// Agility — primary for Hunter. Boosts damage, crit chance, attack speed.
    Agility,
    /// Strength — primary for melee classes. Boosts damage, armor, HP.
    Strength,
    /// Intellect — primary for caster classes. Boosts spell damage, resource.
    Intellect,
    /// Vitality — universal. Boosts HP, HP regen, defense.
    Vitality,
}

/// Player attribute values (base + bonus from gear).
#[derive(Clone, Debug)]
pub struct Attributes {
    pub agility: u32,
    pub strength: u32,
    pub intellect: u32,
    pub vitality: u32,
    /// Unspent attribute points.
    pub unspent_points: u32,
}

/// Every attribute starts at 10 with no unspent points.
impl Default for Attributes {
    fn default() -> (r: Self)
        ensures
            r.agility == 10 && r.strength == 10 && r.intellect == 10 && r.vitality == 10,
            r.unspent_points == 0,
    {
        Attributes { agility: 10, strength: 10, intellect: 10, vitality: 10, unspent_points: 0 }
    }
}

impl Attributes {
    /// The value of attribute `attr`.
    pub open spec fn spec_get(&self, attr: AttributeType) -> u32 {
        match attr {
            AttributeType::Agility => self.agility,
            AttributeType::Strength => self.strength,
            AttributeType::Intellect => self.intellect,
            AttributeType::Vitality => self.vitality,
        }
    }

    /// Starting attributes for a class: every attribute at 10 except
    /// the primary, which starts at 15; no unspent points.
    pub fn for_class(primary: AttributeType) -> (r: Self)
        ensures
            r.spec_get(primary) == 15,
            forall|a: AttributeType| a != primary ==> r.spec_get(a) == 10,
            r.unspent_points == 0,
    {
        let mut attrs = Attributes::default();
        match primary {
            AttributeType::Agility => attrs.agility = 15,
            AttributeType::Strength => attrs.strength = 15,
            AttributeType::Intellect => attrs.intellect = 15,
            AttributeType::Vitality => attrs.vitality = 15,
        }
        attrs
    }

    /// Get the value of a specific attribute.
    pub fn get(&self, attr: AttributeType) -> (r: u32)
        ensures
            r == self.spec_get(attr),
    {
        match attr {
            AttributeType::Agility => self.agility,
            AttributeType::Strength => self.strength,
            AttributeType::Intellect => self.intellect,
            AttributeType::Vitality => self.vitality,
        }
    }

    /// Spend one unspent point on `attr`. Returns `false` (and changes
    /// nothing) when no point is available; otherwise moves one point
    /// from the unspent pool into `attr`.
    pub fn spend_point(&mut self, attr: AttributeType) -> (r: bool)
        requires
            old(self).unspent_points > 0 ==> old(self).spec_get(attr) < u32::MAX,
        ensures
            r == (old(self).unspent_points > 0),
            !r ==> *final(self) == *old(self),
            r ==> final(self).unspent_points == old(self).unspent_points - 1,
            r ==> final(self).spec_get(attr) == old(self).spec_get(attr) + 1,
            r ==> forall|a: AttributeType| a != attr ==> final(self).spec_get(a) == old(self).spec_get(a),
    {
        if self.unspent_points == 0 {
            return false;
        }
        self.unspent_points = self.unspent_points - 1;
        match attr {
            AttributeType::Agility => self.agility = self.agility + 1,
            AttributeType::Strength => self.strength = self.strength + 1,
            AttributeType::Intellect => self.intellect = self.intellect + 1,
            AttributeType::Vitality => self.vitality = self.vitality + 1,
        }
        true
    }
}

/// How attributes scale into combat stats: the primary attribute
/// drives damage, the others feed their fixed channels.
#[derive(Clone, Debug)]
pub struct AttributeScaling {
    pub primary: AttributeType,
}

impl AttributeScaling {
    pub fn new(primary: AttributeType) -> (r: Self)
        ensures
            r.primary == primary,
    {
        AttributeScaling { primary }
    }
}

/// Spending a point never changes the total of allocated plus unspent
/// points: the point moves from the pool into one attribute.
pub proof fn lemma_spend_point_conserves_total(before: Attributes, after: Attributes, attr: AttributeType)
    requires
        before.unspent_points > 0,
        after.unspent_points == before.unspent_points - 1,
        after.spec_get(attr) == before.spec_get(attr) + 1,
        forall|a: AttributeType| a != attr ==> after.spec_get(a) == before.spec_get(a),
    ensures
        after.agility + after.strength + after.intellect + after.vitality + after.unspent_points
            == before.agility + before.strength + before.intellect + before.vitality + before.unspent_points,
{
    assert(after.spec_get(AttributeType::Agility) == after.agility);
    assert(after.spec_get(AttributeType::Strength) == after.strength);
    assert(after.spec_get(AttributeType::Intellect) == after.intellect);
    assert(after.spec_get(AttributeType::Vitality) == after.vitality);
}

} // verus!

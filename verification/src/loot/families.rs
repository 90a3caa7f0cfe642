//! Item damage-family lock — Attribute × Element × Archetype.
//!
//! Every item declares at most one Attribute (Strength / Agility /
//! Intellect) and optional lists of permitted Elements and Archetypes.
//! Axis-line
//! rolls are restricted to the base's family, so cross-family rolls are
//! impossible rather than merely unlikely.

use vstd::prelude::*;

verus! {

/// Which core attribute an item's identity is bound to.
#[derive(Clone, Copy, Debug, PartialEq, Eq, Hash, Structural)]
pub enum Attribute {
    Strength,
    Agility,
    Intellect,
}

impl Attribute {
    pub open spec fn spec_name(self) -> &'static str {
        match self {
            Attribute::Strength => "Strength",
            Attribute::Agility => "Agility",
            Attribute::Intellect => "Intellect",
        }
    }

    pub fn name(self) -> (r: &'static str)
        ensures
            r == self.spec_name(),
    {
        match self {
            Attribute::Strength => "Strength",
            Attribute::Agility => "Agility",
            Attribute::Intellect => "Intellect",
        }
    }
}

/// Damage element an item can roll for.
#[derive(Clone, Copy, Debug, PartialEq, Eq, Hash, Structural)]
pub enum Element {
    Physical,
    Fire,
    Ice,
    Lightning,
}

impl Element {
    pub open spec fn spec_name(self) -> &'static str {
        match self {
            Element::Physical => "Physical",
            Element::Fire => "Fire",
            Element::Ice => "Ice",
            Element::Lightning => "Lightning",
        }
    }

    pub fn name(self) -> (r: &'static str)
        ensures
            r == self.spec_name(),
    {
        match self {
            Element::Physical => "Physical",
            Element::Fire => "Fire",
            Element::Ice => "Ice",
            Element::Lightning => "Lightning",
        }
    }
}

/// Damage shape an item can roll for.
#[derive(Clone, Copy, Debug, PartialEq, Eq, Hash, Structural)]
pub enum Archetype {
    Projectile,
    Beam,
    Aoe,
    Melee,
}

impl Archetype {
    pub open spec fn spec_name(self) -> &'static str {
        match self {
            Archetype::Projectile => "Projectile",
            Archetype::Beam => "Beam",
            Archetype::Aoe => "AoE",
            Archetype::Melee => "Melee",
        }
    }

    pub fn name(self) -> (r: &'static str)
        ensures
            r == self.spec_name(),
    {
        match self {
            Archetype::Projectile => "Projectile",
            Archetype::Beam => "Beam",
            Archetype::Aoe => "AoE",
            Archetype::Melee => "Melee",
        }
    }
}

/// Declared damage-axis lock for a base item. `None` on an axis means
/// wildcard (anything from that axis); `Some` is the allowed set.
#[derive(Clone, Copy, Debug)]
pub struct BaseFamily {
    pub attribute: Option<Attribute>,
    pub element: Option<&'static [Element]>,
    pub archetype: Option<&'static [Archetype]>,
}

impl BaseFamily {
    /// Whether the family permits element `e`.
    pub open spec fn spec_allows_element(&self, e: Element) -> bool {
        match self.element {
            None => true,
            Some(list) => list@.contains(e),
        }
    }

    /// Whether the family permits archetype `a`.
    pub open spec fn spec_allows_archetype(&self, a: Archetype) -> bool {
        match self.archetype {
            None => true,
            Some(list) => list@.contains(a),
        }
    }

    /// Whether the family permits attribute `a`.
    pub open spec fn spec_allows_attribute(&self, a: Attribute) -> bool {
        match self.attribute {
            None => true,
            Some(x) => x == a,
        }
    }

    /// Wildcard family — accessories, anything that should roll from
    /// the full pool on every axis.
    pub fn wildcard() -> (r: BaseFamily)
        ensures
            r.attribute is None,
            r.element is None,
            r.archetype is None,
    {
        BaseFamily { attribute: None, element: None, archetype: None }
    }

    /// An armor family that commits to a single attribute but stays
    /// open on the element and archetype axes.
    pub fn attribute_only(a: Attribute) -> (r: BaseFamily)
        ensures
            r.attribute == Some(a),
            r.element is None,
            r.archetype is None,
    {
        BaseFamily { attribute: Some(a), element: None, archetype: None }
    }

    /// `true` if `e` is permitted by this family's element lock.
    /// Wildcard (`None`) permits everything.
    pub fn allows_element(&self, e: Element) -> (r: bool)
        ensures
            r == self.spec_allows_element(e),
    {
        match self.element {
            None => true,
            Some(list) => {
                let mut i: usize = 0;
                while i < list.len()
                    invariant
                        self.element == Some(list),
                        i <= list@.len(),
                        forall|j: int| 0 <= j < i ==> list@[j] != e,
                    decreases list@.len() - i,
                {
                    if list[i] == e {
                        assert(list@[i as int] == e);
                        return true;
                    }
                    i = i + 1;
                }
                false
            }
        }
    }

    /// `true` if `a` is permitted by this family's archetype lock.
    /// Wildcard (`None`) permits everything.
    pub fn allows_archetype(&self, a: Archetype) -> (r: bool)
        ensures
            r == self.spec_allows_archetype(a),
    {
        match self.archetype {
            None => true,
            Some(list) => {
                let mut i: usize = 0;
                while i < list.len()
                    invariant
                        self.archetype == Some(list),
                        i <= list@.len(),
                        forall|j: int| 0 <= j < i ==> list@[j] != a,
                    decreases list@.len() - i,
                {
                    if list[i] == a {
                        assert(list@[i as int] == a);
                        return true;
                    }
                    i = i + 1;
                }
                false
            }
        }
    }

    /// `true` if `a` is the family's attribute (or the family is
    /// attribute-wildcard).
    pub fn allows_attribute(&self, a: Attribute) -> (r: bool)
        ensures
            r == self.spec_allows_attribute(a),
    {
        match self.attribute {
            None => true,
            Some(self_a) => self_a == a,
        }
    }
}

/// The three attributes.
pub fn attributes_all() -> (r: &'static [Attribute])
    ensures
        r@ == seq![Attribute::Strength, Attribute::Agility, Attribute::Intellect],
{
    let r: &'static [Attribute] = &[Attribute::Strength, Attribute::Agility, Attribute::Intellect];
    assert(r@ == seq![Attribute::Strength, Attribute::Agility, Attribute::Intellect]);
    r
}

/// All four elements.
pub fn elements_all() -> (r: &'static [Element])
    ensures
        r@ == seq![Element::Physical, Element::Fire, Element::Ice, Element::Lightning],
{
    let r: &'static [Element] = &[Element::Physical, Element::Fire, Element::Ice, Element::Lightning];
    assert(r@ == seq![Element::Physical, Element::Fire, Element::Ice, Element::Lightning]);
    r
}

/// The caster elements: Fire, Ice, Lightning.
pub fn elements_caster() -> (r: &'static [Element])
    ensures
        r@ == seq![Element::Fire, Element::Ice, Element::Lightning],
{
    let r: &'static [Element] = &[Element::Fire, Element::Ice, Element::Lightning];
    assert(r@ == seq![Element::Fire, Element::Ice, Element::Lightning]);
    r
}

/// Projectile only.
pub fn archetypes_projectile() -> (r: &'static [Archetype])
    ensures
        r@ == seq![Archetype::Projectile],
{
    let r: &'static [Archetype] = &[Archetype::Projectile];
    assert(r@ == seq![Archetype::Projectile]);
    r
}

/// Melee only.
pub fn archetypes_melee() -> (r: &'static [Archetype])
    ensures
        r@ == seq![Archetype::Melee],
{
    let r: &'static [Archetype] = &[Archetype::Melee];
    assert(r@ == seq![Archetype::Melee]);
    r
}

/// Physical only.
pub fn elements_physical() -> (r: &'static [Element])
    ensures
        r@ == seq![Element::Physical],
{
    let r: &'static [Element] = &[Element::Physical];
    assert(r@ == seq![Element::Physical]);
    r
}

/// A wildcard family permits every attribute, element and archetype;
/// an attribute-only family permits exactly its attribute and every
/// element and archetype.
pub proof fn lemma_family_locks(f: BaseFamily, a: Attribute, e: Element, r: Archetype)
    ensures
        f.attribute is None && f.element is None && f.archetype is None ==> f.spec_allows_attribute(a)
            && f.spec_allows_element(e) && f.spec_allows_archetype(r),
        f.attribute == Some(a) && f.element is None && f.archetype is None ==> f.spec_allows_element(e)
            && f.spec_allows_archetype(r) && (forall|b: Attribute| f.spec_allows_attribute(b) <==> b == a),
{
}

} // verus!

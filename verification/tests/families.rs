use rift_game::loot::families::{
    archetypes_melee, archetypes_projectile, attributes_all, elements_all, elements_caster, Archetype, Attribute,
    BaseFamily, Element,
};

#[test]
fn wildcard_allows_everything() {
    let f = BaseFamily::wildcard();
    for a in attributes_all() {
        assert!(f.allows_attribute(*a));
    }
    for e in elements_all() {
        assert!(f.allows_element(*e));
    }
    for r in [Archetype::Projectile, Archetype::Beam, Archetype::Aoe, Archetype::Melee] {
        assert!(f.allows_archetype(r));
    }
}

#[test]
fn attribute_only_locks_attribute_but_not_other_axes() {
    let f = BaseFamily::attribute_only(Attribute::Strength);
    assert!(f.allows_attribute(Attribute::Strength));
    assert!(!f.allows_attribute(Attribute::Agility));
    assert!(!f.allows_attribute(Attribute::Intellect));
    assert!(f.allows_element(Element::Fire));
}

#[test]
fn element_list_filters_correctly() {
    let f = BaseFamily {
        attribute: Some(Attribute::Intellect),
        element: Some(elements_caster()),
        archetype: None,
    };
    assert!(f.allows_element(Element::Fire));
    assert!(f.allows_element(Element::Ice));
    assert!(f.allows_element(Element::Lightning));
    assert!(!f.allows_element(Element::Physical));
}

#[test]
fn family_names_are_stable() {
    assert_eq!(Attribute::Strength.name(), "Strength");
    assert_eq!(Element::Lightning.name(), "Lightning");
}

#[test]
fn archetype_list_filters_correctly() {
    let f = BaseFamily { attribute: None, element: None, archetype: Some(archetypes_projectile()) };
    assert!(f.allows_archetype(Archetype::Projectile));
    assert!(!f.allows_archetype(Archetype::Beam));
    assert!(!f.allows_archetype(Archetype::Aoe));
    assert!(!f.allows_archetype(Archetype::Melee));
    let g = BaseFamily { attribute: None, element: None, archetype: Some(archetypes_melee()) };
    assert!(g.allows_archetype(Archetype::Melee));
    assert!(!g.allows_archetype(Archetype::Projectile));
    assert_eq!(Archetype::Aoe.name(), "AoE");
}

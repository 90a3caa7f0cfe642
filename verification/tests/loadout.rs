use rift_game::abilities::id;
use rift_game::abilities::AbilityWireId;
use rift_game::loadout::{empty_slot, is_slot_unlocked, Loadout, SLOT_COUNT};

fn w(b: u8) -> AbilityWireId {
    AbilityWireId::new(b)
}

#[test]
fn set_slot_dedupes_when_same_ability_assigned_elsewhere() {
    let mut l = Loadout {
        slots: [w(id::FIRE_BALL), w(id::FROST_RAY), empty_slot(), empty_slot(), empty_slot(), empty_slot()],
    };
    l.set_slot(2, w(id::FIRE_BALL));
    assert_eq!(l.slots[0], empty_slot());
    assert_eq!(l.slots[2], w(id::FIRE_BALL));
    assert_eq!(l.slots[1], w(id::FROST_RAY));
    assert!(l.is_valid());
}

#[test]
fn set_slot_to_empty_does_not_clear_other_empties() {
    let mut l = Loadout {
        slots: [w(id::FIRE_BALL), empty_slot(), empty_slot(), empty_slot(), empty_slot(), empty_slot()],
    };
    l.set_slot(0, empty_slot());
    assert_eq!(l.slots, [empty_slot(); SLOT_COUNT]);
}

#[test]
fn from_slots_normalizes_persisted_duplicates() {
    let l = Loadout::from_slots([
        w(id::FIRE_BALL).raw(),
        w(id::FIRE_BALL).raw(),
        empty_slot().raw(),
        empty_slot().raw(),
        empty_slot().raw(),
        empty_slot().raw(),
    ]);
    assert!(l.is_valid());
    let count = l.slots.iter().filter(|&&s| s == w(id::FIRE_BALL)).count();
    assert_eq!(count, 1);
}

#[test]
fn is_valid_rejects_duplicates() {
    let l = Loadout {
        slots: [w(id::FIRE_BALL), w(id::FIRE_BALL), empty_slot(), empty_slot(), empty_slot(), empty_slot()],
    };
    assert!(!l.is_valid());
}

#[test]
fn slot_unlock_levels_gate_the_action_bar() {
    assert!(is_slot_unlocked(0, 1));
    assert!(!is_slot_unlocked(1, 2));
    assert!(is_slot_unlocked(1, 3));
    assert!(!is_slot_unlocked(5, 19));
    assert!(is_slot_unlocked(5, 20));
    assert!(!is_slot_unlocked(6, 100));
}

#[test]
fn wire_bytes_round_trip_through_from_slots() {
    let l = Loadout::default_hero();
    let back = Loadout::from_slots(l.to_wire_bytes());
    assert_eq!(back.slots, l.slots);
    assert!(l.is_valid());
}

#[test]
fn normalize_is_idempotent_on_concrete_slots() {
    let mut l = Loadout {
        slots: [w(id::FROST_RAY), w(id::FROST_RAY), w(id::FROST_RAY), empty_slot(), w(id::FIRE_BALL), w(id::FIRE_BALL)],
    };
    l.normalize();
    let once = l.slots;
    l.normalize();
    assert_eq!(l.slots, once);
    assert!(l.is_valid());
}

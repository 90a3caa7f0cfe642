//! Player ability loadout — the six wire ids the player has slotted
//! into the action bar.
//!
//! The sentinel wire byte [`EMPTY_SLOT_BYTE`] (`u8::MAX`) marks an empty
//! bar slot; it never collides with a real ability id. Bar slots unlock
//! at level milestones ([`SLOT_UNLOCK_LEVELS`]).

use vstd::prelude::*;

use crate::abilities::{id, lookup, AbilityBar, BAR_SLOTS, registry_row, spec_lookup, AbilityId, AbilityRow, AbilityWireId, REGISTRY_LEN, spec_registry_row};

verus! {

/// Number of action-bar slots.
pub const SLOT_COUNT: usize = 6;

/// Wire byte of the empty-slot sentinel.
pub const EMPTY_SLOT_BYTE: u8 = 255;

/// The empty-slot sentinel.
pub open spec fn spec_empty() -> AbilityWireId {
    AbilityWireId(EMPTY_SLOT_BYTE)
}

/// The empty-slot sentinel.
pub fn empty_slot() -> (r: AbilityWireId)
    ensures
        r == spec_empty(),
{
    AbilityWireId(EMPTY_SLOT_BYTE)
}

/// Character level required to unlock each action-bar slot, by index.
pub const SLOT_UNLOCK_LEVELS: [u32; 6] = [1, 3, 6, 10, 15, 20];

/// `true` if the bar slot at `index` is unlocked at `player_level`.
pub fn is_slot_unlocked(index: usize, player_level: u32) -> (r: bool)
    ensures
        r == (index < SLOT_COUNT && player_level >= SLOT_UNLOCK_LEVELS@[index as int]),
{
    if index >= SLOT_COUNT {
        return false;
    }
    player_level >= SLOT_UNLOCK_LEVELS[index]
}

/// `wire` names an ability the player may slot: a registered ability
/// below the enemy range, neither the sentinel nor the Evasive Roll
/// passive (which lives on a fixed key).
pub open spec fn spec_is_player_ability(wire: AbilityWireId) -> bool {
    wire != spec_empty() && wire.0 < 64 && wire.0 != id::EVASIVE_ROLL && spec_lookup(wire) is Some
}

/// `true` if `wire_id` belongs to an ability the player is allowed to slot.
pub fn is_player_ability(wire_id: AbilityWireId) -> (r: bool)
    ensures
        r == spec_is_player_ability(wire_id),
        r ==> wire_id.0 < 64 && wire_id.0 != id::EVASIVE_ROLL && spec_lookup(wire_id) is Some,
        wire_id.0 < 64 && wire_id.0 != id::EVASIVE_ROLL && spec_lookup(wire_id) is Some ==> r,
{
    if wire_id.0 == EMPTY_SLOT_BYTE || wire_id.0 >= 64 {
        return false;
    }
    if wire_id.0 == id::EVASIVE_ROLL {
        return false;
    }
    lookup(wire_id).is_some()
}

/// The ids of an action bar.
pub type Slots = [AbilityWireId; 6];

/// No ability id other than the sentinel occupies two slots.
pub open spec fn spec_no_duplicates(s: Seq<AbilityWireId>) -> bool {
    forall|i: int, j: int| 0 <= i < j < s.len() && s[i] != spec_empty() ==> s[i] != s[j]
}

/// Slot `i` after the load-time repair: stale Evasive Roll entries and
/// every occurrence of an id that appears again later become empty.
pub open spec fn spec_normalized_at(s: Seq<AbilityWireId>, i: int) -> AbilityWireId {
    if s[i] == spec_empty() || s[i].0 == id::EVASIVE_ROLL
        || exists|j: int| i < j < s.len() && #[trigger] s[j] == s[i] {
        spec_empty()
    } else {
        s[i]
    }
}

/// The whole bar after the load-time repair.
pub open spec fn spec_normalized(s: Seq<AbilityWireId>) -> Seq<AbilityWireId> {
    Seq::new(s.len(), |k: int| spec_normalized_at(s, k))
}

/// Enemy abilities (wire ids from 64 up, other than the empty sentinel)
/// and the evasive roll are never slottable, so a valid loadout holds
/// only the sentinel or player ids below 64.
pub proof fn lemma_valid_loadout_has_no_enemy_ability(l: Loadout, w: AbilityWireId)
    ensures
        w.0 >= 64 ==> !spec_is_player_ability(w),
        w.0 == id::EVASIVE_ROLL ==> !spec_is_player_ability(w),
        l.spec_is_valid() ==> forall|i: int|
            0 <= i < SLOT_COUNT ==> (#[trigger] l.slots@[i]).0 == EMPTY_SLOT_BYTE || l.slots@[i].0 < 64,
{
}

/// The six wire ids the player has slotted on the action bar.
#[derive(Clone, Copy, Debug, PartialEq, Eq)]
pub struct Loadout {
    pub slots: [AbilityWireId; 6],
}

impl Loadout {
    /// `true` if every populated slot is a player ability and no
    /// ability appears twice.
    pub open spec fn spec_is_valid(&self) -> bool {
        &&& forall|i: int| 0 <= i < SLOT_COUNT ==> #[trigger] self.slots@[i] == spec_empty()
            || spec_is_player_ability(self.slots@[i])
        &&& spec_no_duplicates(self.slots@)
    }

    /// The action bar this loadout puts together: each slot holds the
    /// registry row of its wire id (empty for an empty or unknown id),
    /// and the roll slot holds the evasive roll.
    pub fn materialize(&self) -> (r: AbilityBar)
        ensures
            forall|i: int| 0 <= i < SLOT_COUNT ==> #[trigger] r.slots@[i] == spec_lookup(self.slots@[i]),
            r.roll == spec_lookup(AbilityWireId(id::EVASIVE_ROLL)),
    {
        let mut bar = AbilityBar::new();
        let mut i: usize = 0;
        while i < BAR_SLOTS
            invariant
                i <= BAR_SLOTS,
                forall|k: int| 0 <= k < i ==> #[trigger] bar.slots@[k] == spec_lookup(self.slots@[k]),
                forall|k: int| i <= k < BAR_SLOTS ==> #[trigger] bar.slots@[k] is None,
                bar.roll == spec_lookup(AbilityWireId(id::EVASIVE_ROLL)),
            decreases BAR_SLOTS - i,
        {
            match lookup(self.slots[i]) {
                Some(row) => bar.set(i, row),
                None => {},
            }
            i = i + 1;
        }
        bar
    }

    /// Build a loadout from raw wire bytes, then [`Self::normalize`] it.
    /// Unknown ids are kept verbatim.
    pub fn from_slots(bytes: [u8; 6]) -> (r: Self)
        ensures
            forall|i: int| 0 <= i < SLOT_COUNT ==> #[trigger] r.slots@[i] == spec_normalized_at(
                Seq::new(6, |k: int| AbilityWireId(bytes@[k])),
                i,
            ),
            spec_no_duplicates(r.slots@),
    {
        let slots = [
            AbilityWireId(bytes[0]),
            AbilityWireId(bytes[1]),
            AbilityWireId(bytes[2]),
            AbilityWireId(bytes[3]),
            AbilityWireId(bytes[4]),
            AbilityWireId(bytes[5]),
        ];
        let mut s = Loadout { slots };
        assert(s.slots@ == Seq::new(6, |k: int| AbilityWireId(bytes@[k])));
        s.normalize();
        s
    }

    /// Project the slot array back to raw wire bytes.
    pub fn to_wire_bytes(&self) -> (r: [u8; 6])
        ensures
            forall|i: int| 0 <= i < SLOT_COUNT ==> #[trigger] r@[i] == self.slots@[i].0,
    {
        [
            self.slots[0].0,
            self.slots[1].0,
            self.slots[2].0,
            self.slots[3].0,
            self.slots[4].0,
            self.slots[5].0,
        ]
    }

    /// Default starter loadout: Punch in slot 0, every other slot empty.
    pub fn default_hero() -> (r: Self)
        ensures
            r.slots@[0] == AbilityWireId(id::PUNCH),
            forall|i: int| 1 <= i < SLOT_COUNT ==> #[trigger] r.slots@[i] == spec_empty(),
    {
        let e = empty_slot();
        Loadout { slots: [AbilityWireId(id::PUNCH), e, e, e, e, e] }
    }

    /// `true` if every populated slot resolves to a player-castable
    /// ability and no non-sentinel id appears twice.
    pub fn is_valid(&self) -> (r: bool)
        ensures
            r == self.spec_is_valid(),
            r ==> forall|i: int|
                0 <= i < SLOT_COUNT ==> (#[trigger] self.slots@[i]).0 == EMPTY_SLOT_BYTE || (self.slots@[i].0 < 64
                    && self.slots@[i].0 != id::EVASIVE_ROLL && spec_lookup(self.slots@[i]) is Some),
    {
        let mut i: usize = 0;
        while i < SLOT_COUNT
            invariant
                i <= SLOT_COUNT,
                forall|k: int| 0 <= k < i ==> #[trigger] self.slots@[k] == spec_empty()
                    || spec_is_player_ability(self.slots@[k]),
            decreases SLOT_COUNT - i,
        {
            let w = self.slots[i];
            if !(w.0 == EMPTY_SLOT_BYTE || is_player_ability(w)) {
                return false;
            }
            i = i + 1;
        }
        let mut i: usize = 0;
        while i < SLOT_COUNT
            invariant
                i <= SLOT_COUNT,
                forall|a: int, b: int| 0 <= a < i && a < b < SLOT_COUNT && self.slots@[a] != spec_empty()
                    ==> self.slots@[a] != self.slots@[b],
            decreases SLOT_COUNT - i,
        {
            if self.slots[i].0 != EMPTY_SLOT_BYTE {
                let mut j: usize = i + 1;
                while j < SLOT_COUNT
                    invariant
                        i < SLOT_COUNT,
                        i + 1 <= j <= SLOT_COUNT,
                        self.slots@[i as int] != spec_empty(),
                        forall|b: int| i < b < j ==> self.slots@[i as int] != self.slots@[b],
                    decreases SLOT_COUNT - j,
                {
                    if self.slots[i].0 == self.slots[j].0 {
                        return false;
                    }
                    j = j + 1;
                }
            }
            i = i + 1;
        }
        true
    }

    /// `true` if `wire_id` is one of the slotted abilities. Empty slots
    /// never match.
    pub fn contains(&self, wire_id: AbilityWireId) -> (r: bool)
        ensures
            r == (wire_id != spec_empty() && self.slots@.contains(wire_id)),
    {
        if wire_id.0 == EMPTY_SLOT_BYTE {
            return false;
        }
        assert(wire_id != spec_empty());
        let mut i: usize = 0;
        while i < SLOT_COUNT
            invariant
                i <= SLOT_COUNT,
                wire_id != spec_empty(),
                forall|k: int| 0 <= k < i ==> self.slots@[k] != wire_id,
            decreases SLOT_COUNT - i,
        {
            if self.slots[i].0 == wire_id.0 {
                assert(self.slots@[i as int] == wire_id);
                return true;
            }
            i = i + 1;
        }
        false
    }

    /// Replace one slot with a new wire id (or the sentinel to clear it).
    /// No-op when `index` is out of range. Each ability lives in at most
    /// one slot: any other slot already holding `wire_id` is cleared.
    /// Assigning the sentinel never clears other slots.
    pub fn set_slot(&mut self, index: usize, wire_id: AbilityWireId)
        ensures
            index >= SLOT_COUNT ==> *final(self) == *old(self),
            index < SLOT_COUNT ==> final(self).slots@[index as int] == wire_id,
            index < SLOT_COUNT ==> forall|i: int| 0 <= i < SLOT_COUNT && i != index ==>
                #[trigger] final(self).slots@[i] == (if wire_id != spec_empty() && old(self).slots@[i]
                    == wire_id { spec_empty() } else { old(self).slots@[i] }),
    {
        if index >= SLOT_COUNT {
            return;
        }
        if wire_id.0 != EMPTY_SLOT_BYTE {
            let mut i: usize = 0;
            while i < SLOT_COUNT
                invariant
                    i <= SLOT_COUNT,
                    index < SLOT_COUNT,
                    wire_id != spec_empty(),
                    forall|k: int| 0 <= k < i && k != index ==> #[trigger] self.slots@[k] == (if old(
                        self,
                    ).slots@[k] == wire_id { spec_empty() } else { old(self).slots@[k] }),
                    forall|k: int| i <= k < SLOT_COUNT || k == index ==> #[trigger] self.slots@[k]
                        == old(self).slots@[k],
                decreases SLOT_COUNT - i,
            {
                if i != index && self.slots[i].0 == wire_id.0 {
                    self.slots[i] = AbilityWireId(EMPTY_SLOT_BYTE);
                }
                i = i + 1;
            }
        }
        self.slots[index] = wire_id;
    }

    /// Collapse duplicate ids in place so each ability appears in at most
    /// one slot; later occurrences win. Stale Evasive Roll entries (now a
    /// fixed-key passive) are cleared first.
    pub fn normalize(&mut self)
        ensures
            forall|i: int| 0 <= i < SLOT_COUNT ==> #[trigger] final(self).slots@[i]
                == spec_normalized_at(old(self).slots@, i),
            spec_no_duplicates(final(self).slots@),
    {
        let ghost orig = self.slots@;
        let mut k: usize = 0;
        while k < SLOT_COUNT
            invariant
                k <= SLOT_COUNT,
                forall|t: int| 0 <= t < k ==> #[trigger] self.slots@[t] == (if orig[t].0 == id::EVASIVE_ROLL {
                    spec_empty()
                } else {
                    orig[t]
                }),
                forall|t: int| k <= t < SLOT_COUNT ==> #[trigger] self.slots@[t] == orig[t],
            decreases SLOT_COUNT - k,
        {
            if self.slots[k].0 == id::EVASIVE_ROLL {
                self.slots[k] = AbilityWireId(EMPTY_SLOT_BYTE);
            }
            k = k + 1;
        }
        let ghost stripped = self.slots@;
        assert forall|t: int| 0 <= t < SLOT_COUNT implies spec_normalized_at(orig, t)
            == spec_normalized_at(stripped, t) by {
            if orig[t].0 != id::EVASIVE_ROLL && orig[t] != spec_empty() {
                if exists|j: int| t < j < SLOT_COUNT && #[trigger] orig[j] == orig[t] {
                    let j = choose|j: int| t < j < SLOT_COUNT && #[trigger] orig[j] == orig[t];
                    assert(stripped[j] == stripped[t]);
                }
                if exists|j: int| t < j < SLOT_COUNT && #[trigger] stripped[j] == stripped[t] {
                    let j = choose|j: int| t < j < SLOT_COUNT && #[trigger] stripped[j] == stripped[t];
                    assert(orig[j] == orig[t]);
                }
            }
        }
        let mut i: usize = 0;
        while i < SLOT_COUNT
            invariant
                i <= SLOT_COUNT,
                stripped.len() == SLOT_COUNT,
                forall|t: int| 0 <= t < i ==> #[trigger] self.slots@[t] == spec_normalized_at(stripped, t),
                forall|t: int| i <= t < SLOT_COUNT ==> #[trigger] self.slots@[t] == stripped[t],
                forall|t: int| 0 <= t < SLOT_COUNT ==> #[trigger] stripped[t].0 != id::EVASIVE_ROLL,
            decreases SLOT_COUNT - i,
        {
            let wid = self.slots[i];
            if wid.0 != EMPTY_SLOT_BYTE {
                let mut j: usize = i + 1;
                let mut found = false;
                while j < SLOT_COUNT
                    invariant
                        i < SLOT_COUNT,
                        i + 1 <= j <= SLOT_COUNT,
                        stripped.len() == SLOT_COUNT,
                        wid == stripped[i as int],
                        forall|t: int| i < t < SLOT_COUNT ==> #[trigger] self.slots@[t] == stripped[t],
                        found ==> exists|t: int| i < t < SLOT_COUNT && #[trigger] stripped[t] == stripped[i as int],
                        !found ==> forall|t: int| i < t < j ==> stripped[t] != wid,
                    decreases SLOT_COUNT - j,
                {
                    if self.slots[j].0 == wid.0 {
                        assert(stripped[j as int] == stripped[i as int]);
                        found = true;
                    }
                    j = j + 1;
                }
                if found {
                    self.slots[i] = AbilityWireId(EMPTY_SLOT_BYTE);
                }
                proof {
                    if !found {
                        assert(wid != spec_empty());
                        assert(!(exists|t: int| i < t < stripped.len() && #[trigger] stripped[t] == stripped[i as int]));
                    }
                }
            } else {
                assert(wid == spec_empty());
            }
            i = i + 1;
        }
        assert forall|a: int, b: int| 0 <= a < b < SLOT_COUNT && self.slots@[a] != spec_empty()
            implies self.slots@[a] != self.slots@[b] by {
            assert(self.slots@[a] == stripped[a]);
            if self.slots@[b] == self.slots@[a] {
                assert(stripped[b] == stripped[a] || self.slots@[b] == spec_empty());
            }
        }
    }
}

/// The starter loadout is the default.
impl Default for Loadout {
    fn default() -> (r: Self)
        ensures
            r.slots@[0] == AbilityWireId(id::PUNCH),
            forall|i: int| 1 <= i < SLOT_COUNT ==> #[trigger] r.slots@[i] == spec_empty(),
    {
        Self::default_hero()
    }
}

/// Assigning a slot keeps a duplicate-free loadout duplicate-free.
pub proof fn lemma_set_slot_keeps_no_duplicates(before: Seq<AbilityWireId>, after: Seq<AbilityWireId>, index: int, w: AbilityWireId)
    requires
        before.len() == SLOT_COUNT,
        after.len() == SLOT_COUNT,
        0 <= index < SLOT_COUNT,
        spec_no_duplicates(before),
        after[index] == w,
        forall|i: int| 0 <= i < SLOT_COUNT && i != index ==> #[trigger] after[i] == (if w != spec_empty()
            && before[i] == w { spec_empty() } else { before[i] }),
    ensures
        spec_no_duplicates(after),
{
    assert forall|a: int, b: int| 0 <= a < b < after.len() && after[a] != spec_empty()
        implies after[a] != after[b] by {
        if a != index && b != index {
            assert(after[a] == before[a]);
        }
    }
}

/// Normalizing twice changes nothing more: a normalized bar is a fixed
/// point of [`Loadout::normalize`].
pub proof fn lemma_normalize_idempotent(s: Seq<AbilityWireId>)
    requires
        s.len() == SLOT_COUNT,
    ensures
        spec_normalized(spec_normalized(s)) == spec_normalized(s),
{
    let n = spec_normalized(s);
    assert forall|i: int| 0 <= i < SLOT_COUNT implies #[trigger] spec_normalized_at(n, i)
        == spec_normalized_at(s, i) by {
        assert(n[i] == spec_normalized_at(s, i));
        if n[i] != spec_empty() {
            assert(n[i] == s[i]);
            assert(s[i].0 != id::EVASIVE_ROLL);
            if exists|j: int| i < j < n.len() && #[trigger] n[j] == n[i] {
                let j = choose|j: int| i < j < n.len() && #[trigger] n[j] == n[i];
                assert(n[j] == s[j]);
                assert(false);
            }
        }
    }
    assert(spec_normalized(n) =~= n);
}

/// `wire` is castable under the talent tree: a registered player-range
/// ability that is either one of the always-on neutrals (Punch, Evasive
/// Roll) or unlocked by the talent answer `talent_unlocked` for its id.
pub fn is_ability_unlocked<F: Fn(AbilityId) -> bool>(wire_id: AbilityWireId, talent_unlocked: F) -> (r: bool)
    requires
        forall|a: AbilityId| call_requires(talent_unlocked, (a,)),
    ensures
        match spec_lookup(wire_id) {
            None => !r,
            Some(row) => if row.wire_id.0 >= 64 {
                !r
            } else if row.wire_id.0 == id::PUNCH || row.wire_id.0 == id::EVASIVE_ROLL {
                r
            } else {
                call_ensures(talent_unlocked, (row.id,), r)
            },
        },
{
    let ab = match lookup(wire_id) {
        Some(ab) => ab,
        None => return false,
    };
    if ab.wire_id.0 >= 64 {
        return false;
    }
    if ab.wire_id.0 == id::PUNCH || ab.wire_id.0 == id::EVASIVE_ROLL {
        return true;
    }
    talent_unlocked(ab.id)
}

/// Every player-castable registry row, in registry order: rows below the
/// enemy range, except the fixed-key Evasive Roll passive.
pub fn player_abilities() -> (r: Vec<AbilityRow>)
    ensures
        r@ == Seq::new(REGISTRY_LEN as nat, |i: int| spec_registry_row(i)).filter(
            |row: AbilityRow| row.wire_id.0 < 64 && row.wire_id.0 != id::EVASIVE_ROLL,
        ),
{
    let ghost all = Seq::new(REGISTRY_LEN as nat, |i: int| spec_registry_row(i));
    let ghost keep = |row: AbilityRow| row.wire_id.0 < 64 && row.wire_id.0 != id::EVASIVE_ROLL;
    let mut out: Vec<AbilityRow> = Vec::new();
    let mut i: usize = 0;
    while i < REGISTRY_LEN
        invariant
            i <= REGISTRY_LEN,
            all == Seq::new(REGISTRY_LEN as nat, |i: int| spec_registry_row(i)),
            keep == (|row: AbilityRow| row.wire_id.0 < 64 && row.wire_id.0 != id::EVASIVE_ROLL),
            out@ == all.take(i as int).filter(keep),
        decreases REGISTRY_LEN - i,
    {
        let row = registry_row(i);
        assert(all.take(i + 1).drop_last() =~= all.take(i as int));
        assert(all.take(i + 1).last() == row);
        reveal_with_fuel(Seq::<_>::filter, 1);
        if row.wire_id.0 < 64 && row.wire_id.0 != id::EVASIVE_ROLL {
            out.push(row);
        }
        i = i + 1;
    }
    assert(all.take(REGISTRY_LEN as int) == all);
    out
}

/// Server-side gate on a player cast: the Evasive Roll passive and Punch
/// are always castable; anything else must be slotted.
pub fn can_player_cast(loadout: &Loadout, ability_id: AbilityWireId) -> (r: bool)
    ensures
        r == (ability_id.0 == id::EVASIVE_ROLL || ability_id.0 == id::PUNCH || (ability_id
            != spec_empty() && loadout.slots@.contains(ability_id))),
{
    if ability_id.0 == id::EVASIVE_ROLL {
        return true;
    }
    if ability_id.0 == id::PUNCH {
        return true;
    }
    loadout.contains(ability_id)
}

} // verus!

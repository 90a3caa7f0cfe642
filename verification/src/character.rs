//! Character roster — in-memory list of created characters and their
//! profile data (name, gender, level).

pub mod gender_byte;

use vstd::prelude::*;

verus! {

/// Hard cap on simultaneous character slots in the roster.
pub const MAX_CHARACTERS: usize = 5;

#[derive(Clone, Copy, Debug, PartialEq, Eq, Hash, Structural)]
pub enum Gender {
    Male,
    Female,
}

impl Gender {
    pub open spec fn spec_label(self) -> &'static str {
        match self {
            Gender::Male => "Male",
            Gender::Female => "Female",
        }
    }

    pub fn label(self) -> (r: &'static str)
        ensures
            r == self.spec_label(),
    {
        match self {
            Gender::Male => "Male",
            Gender::Female => "Female",
        }
    }

    /// The stable wire byte of each gender.
    pub open spec fn spec_wire_byte(self) -> u8 {
        match self {
            Gender::Male => gender_byte::MALE,
            Gender::Female => gender_byte::FEMALE,
        }
    }

    /// Encode to the stable wire byte. Pair with [`Gender::from_wire_byte`].
    pub fn to_wire_byte(self) -> (r: u8)
        ensures
            r == self.spec_wire_byte(),
    {
        match self {
            Gender::Male => gender_byte::MALE,
            Gender::Female => gender_byte::FEMALE,
        }
    }

    /// Decoding table: the two known bytes, anything else unknown.
    pub open spec fn spec_from_wire_byte(b: u8) -> Option<Gender> {
        if b == gender_byte::MALE {
            Some(Gender::Male)
        } else if b == gender_byte::FEMALE {
            Some(Gender::Female)
        } else {
            None
        }
    }

    /// Decode from a wire byte. Returns `None` for unknown bytes so
    /// future variants can be added without crashing old peers.
    pub fn from_wire_byte(b: u8) -> (r: Option<Self>)
        ensures
            r == Gender::spec_from_wire_byte(b),
    {
        if b == gender_byte::MALE {
            Some(Gender::Male)
        } else if b == gender_byte::FEMALE {
            Some(Gender::Female)
        } else {
            None
        }
    }
}

/// Decoding the encoding of a gender gives it back.
pub proof fn lemma_gender_wire_round_trip(g: Gender)
    ensures
        Gender::spec_from_wire_byte(g.spec_wire_byte()) == Some(g),
{
}

#[derive(Clone, Copy, Debug, PartialEq, Eq, Hash, Structural)]
pub struct CharacterAppearance {
    pub skin_tone: u8,
    pub hair_style: u8,
    pub eyebrow_style: u8,
    pub hair_color: u8,
    pub eyebrow_color: u8,
    pub chest_size: u8,
}

/// The default look: first skin tone / hair / brows, colour 16, mid chest size.
impl Default for CharacterAppearance {
    fn default() -> (r: Self)
        ensures
            r == (CharacterAppearance {
                skin_tone: 0,
                hair_style: 0,
                eyebrow_style: 0,
                hair_color: 16,
                eyebrow_color: 16,
                chest_size: 128,
            }),
    {
        CharacterAppearance {
            skin_tone: 0,
            hair_style: 0,
            eyebrow_style: 0,
            hair_color: 16,
            eyebrow_color: 16,
            chest_size: 128,
        }
    }
}

/// Per-character profile. The player state is rebuilt from this each
/// time the character is loaded.
#[derive(Clone, Debug)]
pub struct CharacterProfile {
    pub name: String,
    pub gender: Gender,
    pub appearance: CharacterAppearance,
    pub level: u32,
    /// Indices into the base-item catalogue for the items this
    /// character currently has equipped. Empty for fresh characters.
    pub equipped_base_ids: Vec<u16>,
}

impl CharacterProfile {
    /// A fresh level-1 character with the default appearance and no gear.
    pub fn new(name: String, gender: Gender) -> (r: Self)
        ensures
            r.name@ == name@,
            r.gender == gender,
            r.appearance == (CharacterAppearance {
                skin_tone: 0,
                hair_style: 0,
                eyebrow_style: 0,
                hair_color: 16,
                eyebrow_color: 16,
                chest_size: 128,
            }),
            r.level == 1,
            r.equipped_base_ids@.len() == 0,
    {
        CharacterProfile {
            name,
            gender,
            appearance: CharacterAppearance::default(),
            level: 1,
            equipped_base_ids: Vec::new(),
        }
    }
}

/// In-memory list of characters. Add / remove / pick. `add` refuses
/// to grow it past [`MAX_CHARACTERS`] profiles.
pub struct CharacterRoster {
    slots: Vec<CharacterProfile>,
}

impl View for CharacterRoster {
    type V = Seq<CharacterProfile>;

    closed spec fn view(&self) -> Seq<CharacterProfile> {
        self.slots@
    }
}

impl CharacterRoster {
    /// An empty roster.
    pub fn new() -> (r: Self)
        ensures
            r@.len() == 0,
    {
        CharacterRoster { slots: Vec::new() }
    }

    pub fn slots(&self) -> (r: &[CharacterProfile])
        ensures
            r@ == self@,
    {
        self.slots.as_slice()
    }

    pub fn len(&self) -> (r: usize)
        ensures
            r == self@.len(),
    {
        self.slots.len()
    }

    pub fn is_full(&self) -> (r: bool)
        ensures
            r == (self@.len() >= MAX_CHARACTERS),
    {
        self.slots.len() >= MAX_CHARACTERS
    }

    pub fn get(&self, idx: usize) -> (r: Option<&CharacterProfile>)
        ensures
            idx < self@.len() ==> r == Some(&self@[idx as int]),
            idx >= self@.len() ==> r is None,
    {
        if idx < self.slots.len() {
            Some(&self.slots[idx])
        } else {
            None
        }
    }

    /// Append `profile` unless the roster is full. Returns the new
    /// profile's slot index, or `None` (roster unchanged) when full.
    pub fn add(&mut self, profile: CharacterProfile) -> (r: Option<usize>)
        ensures
            old(self)@.len() >= MAX_CHARACTERS ==> r is None && final(self)@ == old(self)@,
            old(self)@.len() < MAX_CHARACTERS ==> r == Some(old(self)@.len() as usize)
                && final(self)@ == old(self)@.push(profile),
    {
        if self.is_full() {
            return None;
        }
        self.slots.push(profile);
        Some(self.slots.len() - 1)
    }

    /// Remove the profile at `idx`, shifting later ones down. Out-of-range
    /// indices leave the roster unchanged.
    pub fn remove(&mut self, idx: usize)
        ensures
            idx < old(self)@.len() ==> final(self)@ == old(self)@.remove(idx as int),
            idx >= old(self)@.len() ==> final(self)@ == old(self)@,
    {
        if idx < self.slots.len() {
            self.slots.remove(idx);
        }
    }
}

} // verus!

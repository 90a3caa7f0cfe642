//! Monster roles and their stable wire bytes.

use vstd::prelude::*;

verus! {

/// Logical role of a monster slot. Stable wire-byte ordering: never
/// reorder, only append.
#[derive(Clone, Copy, Debug, PartialEq, Eq, Hash, Structural)]
pub enum MonsterRole {
    Brute,
    Stalker,
    Caster,
    Elite,
    Boss,
    Wraith,
    Mindbinder,
}

/// Every role in wire order.
pub const ALL_ROLES: [MonsterRole; 7] = [
    MonsterRole::Brute,
    MonsterRole::Stalker,
    MonsterRole::Caster,
    MonsterRole::Elite,
    MonsterRole::Boss,
    MonsterRole::Wraith,
    MonsterRole::Mindbinder,
];

impl MonsterRole {
    pub open spec fn spec_wire(self) -> u8 {
        match self {
            MonsterRole::Brute => 0,
            MonsterRole::Stalker => 1,
            MonsterRole::Caster => 2,
            MonsterRole::Elite => 3,
            MonsterRole::Boss => 4,
            MonsterRole::Wraith => 5,
            MonsterRole::Mindbinder => 6,
        }
    }

    /// Path to the monster's glTF in the animated-monsters pack.
    pub fn gltf_path(self) -> (r: &'static str)
        ensures
            r == (match self {
                MonsterRole::Brute => "assets/models/animated-monsters/glTF/GreenDemon.gltf",
                MonsterRole::Stalker => "assets/models/animated-monsters/glTF/Skull.gltf",
                MonsterRole::Caster => "assets/models/animated-monsters/glTF/Cyclops.gltf",
                MonsterRole::Elite => "assets/models/animated-monsters/glTF/Demon.gltf",
                MonsterRole::Boss => "assets/models/animated-monsters/glTF/Yeti.gltf",
                MonsterRole::Wraith => "assets/models/animated-monsters/glTF/Ghost.gltf",
                MonsterRole::Mindbinder => "assets/models/animated-monsters/glTF/Cthulhu.gltf",
            }),
    {
        match self {
            MonsterRole::Brute => "assets/models/animated-monsters/glTF/GreenDemon.gltf",
            MonsterRole::Stalker => "assets/models/animated-monsters/glTF/Skull.gltf",
            MonsterRole::Caster => "assets/models/animated-monsters/glTF/Cyclops.gltf",
            MonsterRole::Elite => "assets/models/animated-monsters/glTF/Demon.gltf",
            MonsterRole::Boss => "assets/models/animated-monsters/glTF/Yeti.gltf",
            MonsterRole::Wraith => "assets/models/animated-monsters/glTF/Ghost.gltf",
            MonsterRole::Mindbinder => "assets/models/animated-monsters/glTF/Cthulhu.gltf",
        }
    }

    /// Encode the role as the byte sent on the wire.
    pub fn to_wire_byte(self) -> (r: u8)
        ensures
            r == self.spec_wire(),
    {
        match self {
            MonsterRole::Brute => 0,
            MonsterRole::Stalker => 1,
            MonsterRole::Caster => 2,
            MonsterRole::Elite => 3,
            MonsterRole::Boss => 4,
            MonsterRole::Wraith => 5,
            MonsterRole::Mindbinder => 6,
        }
    }

    /// Decode a wire byte back into a role; `None` for unknown bytes.
    pub fn from_wire_byte(b: u8) -> (r: Option<Self>)
        ensures
            r matches Some(role) ==> role.spec_wire() == b,
            r is None ==> b >= 7,
            b < 7 ==> r is Some,
    {
        if b == 0 {
            Some(MonsterRole::Brute)
        } else if b == 1 {
            Some(MonsterRole::Stalker)
        } else if b == 2 {
            Some(MonsterRole::Caster)
        } else if b == 3 {
            Some(MonsterRole::Elite)
        } else if b == 4 {
            Some(MonsterRole::Boss)
        } else if b == 5 {
            Some(MonsterRole::Wraith)
        } else if b == 6 {
            Some(MonsterRole::Mindbinder)
        } else {
            None
        }
    }

    /// Human-readable name for HUD display.
    pub fn display_name(self) -> (r: &'static str)
        ensures
            r == (match self {
                MonsterRole::Brute => "Brute",
                MonsterRole::Stalker => "Stalker",
                MonsterRole::Caster => "Caster",
                MonsterRole::Elite => "Elite",
                MonsterRole::Boss => "Boss",
                MonsterRole::Wraith => "Wraith",
                MonsterRole::Mindbinder => "Mindbinder",
            }),
    {
        match self {
            MonsterRole::Brute => "Brute",
            MonsterRole::Stalker => "Stalker",
            MonsterRole::Caster => "Caster",
            MonsterRole::Elite => "Elite",
            MonsterRole::Boss => "Boss",
            MonsterRole::Wraith => "Wraith",
            MonsterRole::Mindbinder => "Mindbinder",
        }
    }
}

/// Distinct roles have distinct wire bytes, so decoding a role's byte
/// gives the role back.
pub proof fn lemma_role_wire_injective(a: MonsterRole, b: MonsterRole)
    ensures
        a.spec_wire() < 7,
        a.spec_wire() == b.spec_wire() ==> a == b,
{
}

} // verus!

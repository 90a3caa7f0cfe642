//! Class roster: class identifiers and avatar model paths.

use vstd::prelude::*;

use crate::character::Gender;

verus! {

/// Opaque class identifier.
#[derive(Clone, Copy, Debug, PartialEq, Eq, Hash)]
pub struct ClassId(pub &'static str);

/// The Hunter class id.
pub fn hunter() -> (r: ClassId)
    ensures
        r == ClassId("hunter"),
{
    ClassId("hunter")
}

/// Skinned glTF + base albedo for the player avatar, picked by gender.
pub fn base_model_paths(gender: Gender) -> (r: (&'static str, &'static str))
    ensures
        r == (match gender {
            Gender::Female => (
                "assets/models/base-characters/Base Characters/Godot - UE/Superhero_Female_FullBody.gltf",
                "assets/models/modular-character-outfits/Textures/Base/T_Regular_Female_Dark_BaseColor.png",
            ),
            Gender::Male => (
                "assets/models/base-characters/Base Characters/Godot - UE/Superhero_Male_FullBody.gltf",
                "assets/models/base-characters/Base Characters/Godot - UE/T_Superhero_Male_Dark.png",
            ),
        }),
{
    match gender {
        Gender::Female => (
            "assets/models/base-characters/Base Characters/Godot - UE/Superhero_Female_FullBody.gltf",
            "assets/models/modular-character-outfits/Textures/Base/T_Regular_Female_Dark_BaseColor.png",
        ),
        Gender::Male => (
            "assets/models/base-characters/Base Characters/Godot - UE/Superhero_Male_FullBody.gltf",
            "assets/models/base-characters/Base Characters/Godot - UE/T_Superhero_Male_Dark.png",
        ),
    }
}

/// Resolve a wire / persisted class id string back to a `ClassId`.
/// Only the Hunter exists, and unknown strings fall back to it, so a
/// stale client can't crash the server.
pub fn class_from_str(s: &str) -> (r: ClassId)
    ensures
        r == ClassId("hunter"),
{
    hunter()
}

} // verus!

//! Hero — the single, universal player archetype: avatar model paths.

use vstd::prelude::*;

use crate::character::Gender;

verus! {

/// Skinned glTF + base albedo for the player avatar, picked by gender.
pub fn base_model_paths(gender: Gender) -> (r: (&'static str, &'static str))
    ensures
        r == (match gender {
            Gender::Female => (
                "assets/models/base-characters/Base Characters/Godot - UE/Superhero_Female_FullBody.gltf",
                "assets/models/base-characters/Base Characters/Godot - UE/T_Superhero_Female_Dark_BaseColor.png",
            ),
            Gender::Male => (
                "assets/models/base-characters/Base Characters/Godot - UE/Superhero_Male_FullBody.gltf",
                "assets/models/base-characters/Base Characters/Godot - UE/T_Superhero_Male_Dark.png",
            ),
        }),
{
    match gender {
        Gender::Female => (
            "assets/models/base-characters/Base Characters/Godot - UE/Superhero_Female_FullBody.gltf",
            "assets/models/base-characters/Base Characters/Godot - UE/T_Superhero_Female_Dark_BaseColor.png",
        ),
        Gender::Male => (
            "assets/models/base-characters/Base Characters/Godot - UE/Superhero_Male_FullBody.gltf",
            "assets/models/base-characters/Base Characters/Godot - UE/T_Superhero_Male_Dark.png",
        ),
    }
}

} // verus!

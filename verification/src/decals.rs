//! Blood-splatter decal bookkeeping: the render-object indices of the
//! live decals and the splatter generator's seed.

use vstd::prelude::*;

verus! {

/// Maximum blood splatters per floor.
pub const MAX_DECALS: usize = 120;

/// Manages persistent blood splatter decals on floors / walls.
pub struct DecalSystem {
    /// Render object indices for active decals.
    pub decal_indices: Vec<usize>,
    /// Linear-congruential generator state for splatter shapes.
    pub rng: u32,
}

impl DecalSystem {
    /// No decals yet; the generator starts from its fixed seed.
    pub fn new() -> (r: Self)
        ensures
            r.decal_indices@.len() == 0,
            r.rng == 7919,
    {
        DecalSystem { decal_indices: Vec::new(), rng: 7919 }
    }

    /// Forget all decals (floor transition); the generator keeps its state.
    pub fn clear(&mut self)
        ensures
            final(self).decal_indices@.len() == 0,
            final(self).rng == old(self).rng,
    {
        self.decal_indices.clear();
    }
}

} // verus!

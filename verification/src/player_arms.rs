//! Player arms that follow the cursor: the two render-object indices.

use vstd::prelude::*;

verus! {

/// Render-object indices for the two visible arms.
pub struct PlayerArms {
    pub right_obj: Option<usize>,
    pub left_obj: Option<usize>,
}

impl PlayerArms {
    /// No arm objects allocated yet.
    pub fn new() -> (r: Self)
        ensures
            r.right_obj is None && r.left_obj is None,
    {
        PlayerArms { right_obj: None, left_obj: None }
    }

    /// Drop cached object indices (before regenerating the world).
    pub fn clear(&mut self)
        ensures
            final(self).right_obj is None && final(self).left_obj is None,
    {
        self.right_obj = None;
        self.left_obj = None;
    }
}

} // verus!

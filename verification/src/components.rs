//! ECS components owned by the gameplay layer.

use vstd::prelude::*;

verus! {

/// The action-state variant attached to a player entity.
#[derive(Clone, Copy, Debug, Default, PartialEq, Eq, Structural)]
pub enum PlayerAction {
    /// No special action.
    #[default]
    Idle,
    JumpStart,
    JumpAir,
    JumpLand,
    Roll,
    Attack,
}

} // verus!

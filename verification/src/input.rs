//! The per-frame input the controllers react to: the fixed set of logical
//! actions (up, down, left, right, jump, interact), as the input collaborator
//! reports them after key binding and device handling, which stay outside
//! this library.

use vstd::prelude::*;

verus! {

/// Which logical actions are held this frame, and which were pressed this
/// very frame. Edge detection (just-pressed) is only consumed for the jump
/// and interact actions.
#[derive(Clone, Copy, Debug, PartialEq, Eq, Structural)]
pub struct InputFrame {
    /// The up / forward direction is held.
    pub up: bool,
    /// The down / backward direction is held.
    pub down: bool,
    /// The left direction is held.
    pub left: bool,
    /// The right direction is held.
    pub right: bool,
    /// The jump action is held.
    pub jump: bool,
    /// The jump action was pressed this very frame.
    pub jump_just_pressed: bool,
    /// The interact action was pressed this very frame.
    pub interact_just_pressed: bool,
}

} // verus!

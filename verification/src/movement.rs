//! The ground/air movement controller: turns held directional actions into a
//! horizontal velocity intent whose magnitude never exceeds the movement
//! speed, plus the facing that goes with it, and decides when a jump impulse
//! is requested.

use vstd::prelude::*;

use crate::input::InputFrame;
use crate::math::{sqrt_ceil, tdiv, Vec3};
use crate::units::{HALF_PLAYER_HEIGHT, JUMP_HEIGHT, MOVEMENT_SPEED, SCALE};

verus! {

/// The per-frame intent handed to the physics collaborator's locomotion
/// driver while the character walks or jumps. It is a request, not a
/// position write.
#[derive(Clone, Copy, Debug, PartialEq, Eq, Structural)]
pub struct WalkIntent {
    /// Desired horizontal velocity; its magnitude never exceeds the
    /// movement speed.
    pub desired_velocity: Vec3,
    /// Desired facing: the velocity's direction at unit length, or zero when
    /// there is no movement (no rotation is applied then).
    pub desired_forward: Vec3,
    /// Height at which the driver floats the character above the ground.
    pub float_height: i64,
}

/// The unclamped movement accumulator on the x axis: left subtracts one
/// speed unit, right adds one.
pub open spec fn raw_move_x(input: InputFrame) -> int {
    (if input.left {
        -(MOVEMENT_SPEED as int)
    } else {
        0
    }) + (if input.right {
        MOVEMENT_SPEED as int
    } else {
        0
    })
}

/// The unclamped movement accumulator on the z axis: up (forward) subtracts
/// one speed unit, down (backward) adds one.
pub open spec fn raw_move_z(input: InputFrame) -> int {
    (if input.up {
        -(MOVEMENT_SPEED as int)
    } else {
        0
    }) + (if input.down {
        MOVEMENT_SPEED as int
    } else {
        0
    })
}

/// Full description of one movement frame: the exact relation between the
/// held directions and the intent handed to the locomotion driver.
pub open spec fn walk_intent_post(input: InputFrame, r: WalkIntent) -> bool {
    &&& r.desired_velocity.y == 0
    &&& r.desired_forward.y == 0
    &&& r.float_height == HALF_PLAYER_HEIGHT
    // The planar speed never exceeds the movement speed, whatever is held.
    &&& r.desired_velocity.norm_sq_xz() <= MOVEMENT_SPEED * MOVEMENT_SPEED
    // A single held direction (or opposite pairs cancelling) is passed
    // through unclamped.
    &&& ((raw_move_x(input) * raw_move_x(input) + raw_move_z(input) * raw_move_z(input)
        <= MOVEMENT_SPEED * MOVEMENT_SPEED) ==> (r.desired_velocity.x == raw_move_x(input)
        && r.desired_velocity.z == raw_move_z(input)))
    // A diagonal is scaled back onto the speed circle.
    &&& ((raw_move_x(input) * raw_move_x(input) + raw_move_z(input) * raw_move_z(input)
        > MOVEMENT_SPEED * MOVEMENT_SPEED) ==> {
        let d = sqrt_ceil(
            (raw_move_x(input) * raw_move_x(input) + raw_move_z(input) * raw_move_z(input)) as nat,
        ) as int;
        &&& r.desired_velocity.x == tdiv(raw_move_x(input) * MOVEMENT_SPEED, d)
        &&& r.desired_velocity.z == tdiv(raw_move_z(input) * MOVEMENT_SPEED, d)
    })
    // No held direction means no movement at all.
    &&& ((!input.up && !input.down && !input.left && !input.right) ==> (r.desired_velocity
        == Vec3::spec_zero() && r.desired_forward == Vec3::spec_zero()))
    // The facing is the clamped velocity's direction at unit length, or
    // zero when the character does not move.
    &&& (r.desired_velocity.norm_sq_xz() == 0 ==> r.desired_forward == Vec3::spec_zero())
    &&& (r.desired_velocity.norm_sq_xz() > 0 ==> {
        let d = sqrt_ceil(r.desired_velocity.norm_sq_xz() as nat) as int;
        &&& r.desired_forward.x == tdiv(r.desired_velocity.x * SCALE, d)
        &&& r.desired_forward.z == tdiv(r.desired_velocity.z * SCALE, d)
    })
    &&& r.desired_forward.norm_sq_xz() <= SCALE * SCALE
}

/// Converts the held directional actions into this frame's walk intent:
/// accumulate one speed unit per held direction on each axis, clamp the
/// resulting planar vector's magnitude to the movement speed (a diagonal is
/// no faster than an axis), and face along the movement when there is any.
pub fn walk_intent(input: &InputFrame) -> (r: WalkIntent)
    ensures
        walk_intent_post(*input, r),
{
    let mut movement = Vec3::zero();
    if input.up {
        movement.z = movement.z - MOVEMENT_SPEED;
    }
    if input.down {
        movement.z = movement.z + MOVEMENT_SPEED;
    }
    if input.left {
        movement.x = movement.x - MOVEMENT_SPEED;
    }
    if input.right {
        movement.x = movement.x + MOVEMENT_SPEED;
    }
    let movement = movement.clamp_len_max(MOVEMENT_SPEED);
    let forward = movement.normalize_or_zero();
    WalkIntent { desired_velocity: movement, desired_forward: forward, float_height: HALF_PLAYER_HEIGHT }
}

/// Decides this frame's jump impulse request while the mode is Jumping: the
/// impulse (with its fixed target apex height) is issued on the first frame
/// of the mode and re-issued every frame the jump action stays held, so
/// releasing early gives a lower jump.
pub fn jump_request(just_entered: bool, jump_held: bool) -> (r: Option<i64>)
    ensures
        (just_entered || jump_held) ==> r == Some(JUMP_HEIGHT),
        !(just_entered || jump_held) ==> r is None,
{
    if just_entered || jump_held {
        Some(JUMP_HEIGHT)
    } else {
        None
    }
}

} // verus!

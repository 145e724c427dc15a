//! The animation frame selector: a two-frame walk loop driven by elapsed
//! time and the horizontal speed the physics driver settled on, independent
//! of actual travel distance.

use vstd::prelude::*;

use crate::units::{SCALE, STRIDE_PHASE, WALK_CYCLE};

verus! {

/// Index of the idle / default frame.
pub const FRAME_IDLE: usize = 0;

/// Index of the mid-stride frame.
pub const FRAME_STRIDE: usize = 1;

/// The selector's only persistent state: when the current walk cycle
/// started, or unset while the character is not walking.
#[derive(Clone, Copy, Debug)]
pub struct AnimationState {
    /// Elapsed time latched on the first frame of non-zero speed.
    pub walk_start: Option<i64>,
}

/// The frame shown at `m` fixed-point seconds into the walk cycle: the last
/// entry of the ascending keyframe table (phase 0.0 shows the idle frame,
/// phase 0.6 the mid-stride frame) whose phase threshold is at or below the
/// current phase.
pub open spec fn walk_frame(m: int) -> usize {
    if m * (SCALE as int) >= (STRIDE_PHASE as int) * (WALK_CYCLE as int) {
        FRAME_STRIDE
    } else {
        FRAME_IDLE
    }
}

/// Full description of one selector frame: without a movement driver or at
/// zero speed the idle frame shows and the latched start is cleared;
/// otherwise the start is latched on the first moving frame and the frame
/// follows the walk cycle's phase.
pub open spec fn animation_post(
    state: AnimationState,
    speed: Option<i64>,
    elapsed: int,
    frame: usize,
    next: AnimationState,
) -> bool {
    let moving = speed matches Some(s) && s > 0;
    &&& (!moving ==> (frame == FRAME_IDLE && next.walk_start is None))
    &&& (moving ==> {
        let start = match state.walk_start {
            Some(t) => t as int,
            None => elapsed,
        };
        &&& next.walk_start == Some(start as i64)
        &&& frame == walk_frame((elapsed - start) % (WALK_CYCLE as int))
    })
}

/// One frame of the animation selector. `speed` is the horizontal speed the
/// physics driver settled on, or nothing while no movement driver is
/// attached; `elapsed` is the total elapsed time.
pub fn animation_step(state: &AnimationState, speed: Option<i64>, elapsed: i64) -> (r: (
    usize,
    AnimationState,
))
    requires
        0 <= elapsed,
        (state.walk_start matches Some(t) ==> 0 <= t <= elapsed),
        (speed matches Some(s) ==> s >= 0),
    ensures
        animation_post(*state, speed, elapsed as int, r.0, r.1),
        (r.1.walk_start matches Some(t) ==> 0 <= t <= elapsed),
{
    let moving = match speed {
        None => false,
        Some(s) => s > 0,
    };
    if !moving {
        return (FRAME_IDLE, AnimationState { walk_start: None });
    }
    let start: i64 = match state.walk_start {
        Some(t) => t,
        None => elapsed,
    };
    let m: i64 = (((elapsed - start) as u64) % (WALK_CYCLE as u64)) as i64;
    let frame = if m * SCALE >= STRIDE_PHASE * WALK_CYCLE {
        FRAME_STRIDE
    } else {
        FRAME_IDLE
    };
    (frame, AnimationState { walk_start: Some(start) })
}

} // verus!

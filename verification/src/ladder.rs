//! The ladder climb controller: while the character's mode is OnLadder, a
//! held Up or Down action moves it vertically at a fixed speed between the
//! ladder's bottom and top bounds, and ends the climb past either bound.

use vstd::prelude::*;

use crate::math::{tdiv, Vec3};
use crate::units::{
    CLIMB_EPSILON, HALF_PLAYER_HEIGHT, LADDER_EXIT_PUSH, LADDER_SPEED, SCALE, SIM_LIMIT,
};

verus! {

/// Transient climbing data attached to the character while its mode is
/// OnLadder: the climbed face's outward normal and the world points bounding
/// the climb. It is created when the climb begins and discarded when it
/// ends; it has no existence outside that mode.
#[derive(Clone, Copy, Debug, PartialEq, Eq, Structural)]
pub struct LadderContext {
    /// Outward unit normal of the climbable face, fixed-point scaled.
    pub face_normal: Vec3,
    /// World point bounding the climb from above.
    pub top: Vec3,
    /// World point bounding the climb from below.
    pub bottom: Vec3,
}

impl LadderContext {
    /// A usable context: both bounds stay within the mid-tick position
    /// limit, the top is not below the bottom, and the face normal is a
    /// bounded direction.
    pub open spec fn wf(self) -> bool {
        &&& self.top.bounded(SIM_LIMIT as int)
        &&& self.bottom.bounded(SIM_LIMIT as int)
        &&& self.face_normal.bounded(SCALE as int)
        &&& self.bottom.y <= self.top.y
    }
}

/// What one frame of the climb controller decided.
#[derive(Clone, Copy, Debug, PartialEq, Eq, Structural)]
pub struct ClimbStep {
    /// The character's position after the frame.
    pub translation: Vec3,
    /// A ladder-end signal fires this frame.
    pub end: bool,
    /// The exit also pushed the character backward off the ladder face.
    pub pushed_back: bool,
}

/// Vertical distance climbed in `dt` fixed-point seconds.
pub open spec fn climb_delta(dt: int) -> int {
    LADDER_SPEED * dt / (SCALE as int)
}

/// The character's height relative to the ladder's bottom bound.
pub open spec fn climb_pos(translation: Vec3, ladder: LadderContext) -> int {
    translation.y - ladder.bottom.y
}

/// Ceiling of the climb: the ladder's height plus half the character's
/// height; past it, a held Up ends the climb.
pub open spec fn climb_ceiling(ladder: LadderContext) -> int {
    ladder.top.y - ladder.bottom.y + HALF_PLAYER_HEIGHT
}

/// One component of the backward push applied when the climb exits past the
/// top: the face normal scaled by the fixed clearance distance.
pub open spec fn exit_push(n: int) -> int {
    tdiv(n * (LADDER_EXIT_PUSH as int), SCALE as int)
}

/// Full description of one climb frame: the exact case analysis of the
/// controller, relating its inputs to the step it returns.
pub open spec fn climb_step_post(
    translation: Vec3,
    ladder: LadderContext,
    up: bool,
    down: bool,
    dt: int,
    r: ClimbStep,
) -> bool {
    let cur = climb_pos(translation, ladder);
    &&& (up && !down && cur > climb_ceiling(ladder)) ==> {
        &&& r.end
        &&& r.pushed_back
        &&& r.translation.x == translation.x - exit_push(ladder.face_normal.x as int)
        &&& r.translation.y == translation.y - exit_push(ladder.face_normal.y as int)
        &&& r.translation.z == translation.z - exit_push(ladder.face_normal.z as int)
    }
    &&& (up && !down && cur <= climb_ceiling(ladder)) ==> {
        &&& !r.end
        &&& !r.pushed_back
        &&& r.translation.x == translation.x
        &&& r.translation.y == translation.y + climb_delta(dt)
        &&& r.translation.z == translation.z
    }
    &&& (down && !up && cur < CLIMB_EPSILON) ==> {
        &&& r.end
        &&& !r.pushed_back
        &&& r.translation == translation
    }
    &&& (down && !up && cur >= CLIMB_EPSILON) ==> {
        &&& !r.end
        &&& !r.pushed_back
        &&& r.translation.x == translation.x
        &&& r.translation.y == translation.y - climb_delta(dt)
        &&& r.translation.z == translation.z
    }
    &&& (up == down) ==> (!r.end && !r.pushed_back && r.translation == translation)
}

/// One frame of the ladder climb controller. Up climbs toward the top and,
/// once past the ceiling, ends the climb and pushes the character backward
/// off the face; Down climbs toward the bottom and, within a small margin of
/// it, ends the climb in place. Holding neither or both moves nothing.
/// Horizontal position is never touched except by the exit push.
pub fn climb_step(translation: Vec3, ladder: &LadderContext, up: bool, down: bool, dt: i64) -> (r:
    ClimbStep)
    requires
        translation.bounded(SIM_LIMIT as int),
        ladder.wf(),
        0 <= dt <= SCALE,
    ensures
        climb_step_post(translation, *ladder, up, down, dt as int, r),
        r.translation.bounded(SIM_LIMIT as int + 2 * SCALE as int),
{
    if up && !down {
        let cur: i64 = translation.y - ladder.bottom.y;
        if cur > ladder.top.y - ladder.bottom.y + HALF_PLAYER_HEIGHT {
            let px: i64 = crate::math::div_trunc(ladder.face_normal.x * LADDER_EXIT_PUSH, SCALE);
            let py: i64 = crate::math::div_trunc(ladder.face_normal.y * LADDER_EXIT_PUSH, SCALE);
            let pz: i64 = crate::math::div_trunc(ladder.face_normal.z * LADDER_EXIT_PUSH, SCALE);
            ClimbStep {
                translation: Vec3 {
                    x: translation.x - px,
                    y: translation.y - py,
                    z: translation.z - pz,
                },
                end: true,
                pushed_back: true,
            }
        } else {
            let delta: i64 = crate::math::div_trunc(LADDER_SPEED * dt, SCALE);
            ClimbStep {
                translation: Vec3 {
                    x: translation.x,
                    y: translation.y + delta,
                    z: translation.z,
                },
                end: false,
                pushed_back: false,
            }
        }
    } else if down && !up {
        let cur: i64 = translation.y - ladder.bottom.y;
        if cur < CLIMB_EPSILON {
            ClimbStep { translation, end: true, pushed_back: false }
        } else {
            let delta: i64 = crate::math::div_trunc(LADDER_SPEED * dt, SCALE);
            ClimbStep {
                translation: Vec3 {
                    x: translation.x,
                    y: translation.y - delta,
                    z: translation.z,
                },
                end: false,
                pushed_back: false,
            }
        }
    } else {
        ClimbStep { translation, end: false, pushed_back: false }
    }
}

/// The climb position is clamped: a frame that does not end the climb keeps
/// the character's height relative to the ladder bottom within the climbable
/// band, overshooting the ceiling by at most one frame of climb movement;
/// and a frame that finds the character above the ceiling with Up held
/// always ends the climb and pushes the character backward. Frames shorter
/// than the bottom margin allows (two margins of movement) are required:
/// with a longer frame, a held Down from exactly the margin would land below
/// the band.
pub proof fn lemma_climb_clamped(
    translation: Vec3,
    ladder: LadderContext,
    up: bool,
    down: bool,
    dt: int,
    r: ClimbStep,
)
    requires
        ladder.wf(),
        0 <= dt <= SCALE as int,
        climb_delta(dt) <= 2 * CLIMB_EPSILON,
        climb_step_post(translation, ladder, up, down, dt, r),
        -(CLIMB_EPSILON as int) <= climb_pos(translation, ladder) <= climb_ceiling(ladder),
    ensures
        !r.end ==> -(CLIMB_EPSILON as int) <= climb_pos(r.translation, ladder) <= climb_ceiling(
            ladder,
        ) + climb_delta(dt),
        (up && !down && climb_pos(translation, ladder) > climb_ceiling(ladder)) ==> (r.end
            && r.pushed_back),
{
    assert(climb_delta(dt) >= 0) by {
        vstd::arithmetic::div_mod::lemma_div_pos_is_pos(LADDER_SPEED * dt, SCALE as int);
    }
}

} // verus!

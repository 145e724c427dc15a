//! The locomotion state machine: the character's mode (Grounded, Jumping,
//! OnLadder), the per-frame triggers it reacts to, and the side effects a
//! transition applies to the physics body.

use vstd::prelude::*;

use crate::ladder::LadderContext;
use crate::math::Vec3;

verus! {

/// The character's locomotion mode: exactly one of these at any time, by
/// construction. While OnLadder it carries the climb's transient context.
#[derive(Clone, Copy, Debug, PartialEq, Eq, Structural)]
pub enum Mode {
    /// Walking on the ground; the default mode.
    Grounded,
    /// Airborne from a jump.
    Jumping,
    /// Climbing a ladder face.
    OnLadder(LadderContext),
}

/// The slice of the physics collaborator's rigid body that transitions act
/// on: its control regime, its velocities, and whether the default walking
/// driver is installed.
#[derive(Clone, Copy, Debug, PartialEq, Eq, Structural)]
pub struct PhysicsBody {
    /// True when the body is under kinematic (direct positional) control
    /// rather than dynamic simulation.
    pub kinematic: bool,
    /// Linear velocity of the body.
    pub linear_velocity: Vec3,
    /// Angular velocity of the body.
    pub angular_velocity: Vec3,
    /// True when the grounded movement driver is attached to the body.
    pub walk_driver: bool,
}

/// A request to start climbing, raised by the interaction subsystem for one
/// character and carrying the climb context derived from the ladder hit.
#[derive(Clone, Copy, Debug, PartialEq, Eq, Structural)]
pub struct LadderBeginSignal {
    /// The character the signal addresses.
    pub entity: u64,
    /// Outward normal of the ladder face hit.
    pub face_normal: Vec3,
    /// Upper climb bound.
    pub top: Vec3,
    /// Lower climb bound.
    pub bottom: Vec3,
}

/// A request to stop climbing, addressed to one character.
#[derive(Clone, Copy, Debug, PartialEq, Eq, Structural)]
pub struct LadderEndSignal {
    /// The character the signal addresses.
    pub entity: u64,
}

impl LadderBeginSignal {
    /// The climb context this signal carries.
    pub open spec fn spec_context(self) -> LadderContext {
        LadderContext { face_normal: self.face_normal, top: self.top, bottom: self.bottom }
    }

    /// Extracts the climb context carried by the signal.
    pub fn context(&self) -> (r: LadderContext)
        ensures
            r == self.spec_context(),
    {
        LadderContext { face_normal: self.face_normal, top: self.top, bottom: self.bottom }
    }
}

/// Everything one frame's transition evaluation reacts to: the jump action's
/// state, whether the physics collaborator still reports an active jump
/// impulse, and the ladder signals drained this frame.
#[derive(Clone, Copy, Debug)]
pub struct Triggers {
    /// The jump action was pressed this very frame.
    pub jump_just_pressed: bool,
    /// The jump action is held.
    pub jump_held: bool,
    /// The physics collaborator reports a jump impulse still in progress.
    pub jump_active: bool,
    /// A ladder-begin signal drained this frame, if any.
    pub ladder_begin: Option<LadderBeginSignal>,
    /// A ladder-end signal drained this frame, if any.
    pub ladder_end: Option<LadderEndSignal>,
}

/// The mode after one frame's transition evaluation for the character
/// `entity`. The transitions are tried in a fixed precedence order and the
/// first match wins, so at most one fires per frame; signals addressed to
/// another character, and signals that do not fit the current mode, are
/// ignored.
pub open spec fn step_mode(mode: Mode, trig: Triggers, entity: u64) -> Mode {
    match mode {
        Mode::Grounded => {
            if trig.jump_just_pressed {
                Mode::Jumping
            } else {
                match trig.ladder_begin {
                    Some(b) => if b.entity == entity {
                        Mode::OnLadder(b.spec_context())
                    } else {
                        Mode::Grounded
                    },
                    None => Mode::Grounded,
                }
            }
        },
        Mode::Jumping => {
            if trig.jump_active && trig.jump_held {
                Mode::Jumping
            } else if !trig.jump_active && !trig.jump_held {
                Mode::Grounded
            } else {
                Mode::Jumping
            }
        },
        Mode::OnLadder(ctx) => {
            match trig.ladder_end {
                Some(e) => if e.entity == entity {
                    Mode::Grounded
                } else {
                    Mode::OnLadder(ctx)
                },
                None => Mode::OnLadder(ctx),
            }
        },
    }
}

/// The physics body after the side effects of a mode change. Entering
/// OnLadder switches the body to kinematic control, zeroes both velocities
/// and removes the walking driver; leaving OnLadder restores dynamic control
/// and the driver. No other transition touches the body.
pub open spec fn step_body(mode: Mode, next: Mode, body: PhysicsBody) -> PhysicsBody {
    if !(mode is OnLadder) && next is OnLadder {
        PhysicsBody {
            kinematic: true,
            linear_velocity: Vec3::spec_zero(),
            angular_velocity: Vec3::spec_zero(),
            walk_driver: false,
        }
    } else if mode is OnLadder && !(next is OnLadder) {
        PhysicsBody { kinematic: false, walk_driver: true, ..body }
    } else {
        body
    }
}

/// The body is controlled the way the mode demands: kinematic exactly while
/// climbing, and driven by the walking driver exactly while not climbing.
pub open spec fn consistent(mode: Mode, body: PhysicsBody) -> bool {
    &&& body.kinematic == mode is OnLadder
    &&& body.walk_driver == !(mode is OnLadder)
}

/// Evaluates one frame of the state machine for the character `entity`:
/// picks the single winning transition and applies its side effects to the
/// physics body.
pub fn transition(mode: &Mode, body: &mut PhysicsBody, trig: &Triggers, entity: u64) -> (next:
    Mode)
    ensures
        next == step_mode(*mode, *trig, entity),
        *final(body) == step_body(*mode, next, *old(body)),
{
    let next = match mode {
        Mode::Grounded => {
            if trig.jump_just_pressed {
                Mode::Jumping
            } else {
                match &trig.ladder_begin {
                    Some(b) if b.entity == entity => Mode::OnLadder(b.context()),
                    _ => Mode::Grounded,
                }
            }
        },
        Mode::Jumping => {
            if trig.jump_active && trig.jump_held {
                Mode::Jumping
            } else if !trig.jump_active && !trig.jump_held {
                Mode::Grounded
            } else {
                Mode::Jumping
            }
        },
        Mode::OnLadder(ctx) => {
            match &trig.ladder_end {
                Some(e) if e.entity == entity => Mode::Grounded,
                _ => Mode::OnLadder(*ctx),
            }
        },
    };
    let entering = !mode.is_on_ladder() && next.is_on_ladder();
    let leaving = mode.is_on_ladder() && !next.is_on_ladder();
    if entering {
        *body =
        PhysicsBody {
            kinematic: true,
            linear_velocity: Vec3::zero(),
            angular_velocity: Vec3::zero(),
            walk_driver: false,
        };
    } else if leaving {
        *body = PhysicsBody { kinematic: false, walk_driver: true, ..*body };
    }
    next
}

impl Mode {
    /// True exactly in the OnLadder mode.
    pub fn is_on_ladder(&self) -> (r: bool)
        ensures
            r == (*self is OnLadder),
    {
        match self {
            Mode::OnLadder(_) => true,
            _ => false,
        }
    }
}

/// Every transition preserves mode/body consistency: whatever triggers a
/// frame brings, the body stays kinematic exactly while the mode is
/// OnLadder.
pub proof fn lemma_consistency_preserved(mode: Mode, body: PhysicsBody, trig: Triggers, entity: u64)
    requires
        consistent(mode, body),
    ensures
        consistent(step_mode(mode, trig, entity), step_body(mode, step_mode(mode, trig, entity), body)),
{
}

/// A jump round trip returns to where it began: from Grounded, a just-pressed
/// jump enters Jumping, and a later frame with the impulse spent and the
/// action released returns to Grounded, with the physics body untouched
/// throughout.
pub proof fn lemma_jump_round_trip(body: PhysicsBody, t1: Triggers, t2: Triggers, entity: u64)
    requires
        consistent(Mode::Grounded, body),
        t1.jump_just_pressed,
        !t2.jump_active,
        !t2.jump_held,
    ensures
        step_mode(Mode::Grounded, t1, entity) == Mode::Jumping,
        step_body(Mode::Grounded, Mode::Jumping, body) == body,
        step_mode(Mode::Jumping, t2, entity) == Mode::Grounded,
        step_body(Mode::Jumping, Mode::Grounded, body) == body,
        consistent(Mode::Jumping, body),
        consistent(Mode::Grounded, body),
{
}

/// A ladder round trip restores grounded physics: from Grounded, an addressed
/// ladder-begin signal enters OnLadder — switching the body to kinematic
/// control with both velocities zeroed and the walking driver removed — and
/// an addressed ladder-end signal returns to Grounded with dynamic control
/// and the driver restored.
pub proof fn lemma_ladder_round_trip(
    body: PhysicsBody,
    t1: Triggers,
    t2: Triggers,
    b: LadderBeginSignal,
    entity: u64,
)
    requires
        consistent(Mode::Grounded, body),
        !t1.jump_just_pressed,
        t1.ladder_begin == Some(b),
        b.entity == entity,
        (t2.ladder_end matches Some(e) && e.entity == entity),
    ensures
        step_mode(Mode::Grounded, t1, entity) == Mode::OnLadder(b.spec_context()),
        step_body(Mode::Grounded, Mode::OnLadder(b.spec_context()), body) == (PhysicsBody {
            kinematic: true,
            linear_velocity: Vec3::spec_zero(),
            angular_velocity: Vec3::spec_zero(),
            walk_driver: false,
        }),
        consistent(
            Mode::OnLadder(b.spec_context()),
            step_body(Mode::Grounded, Mode::OnLadder(b.spec_context()), body),
        ),
        step_mode(Mode::OnLadder(b.spec_context()), t2, entity) == Mode::Grounded,
        !step_body(
            Mode::OnLadder(b.spec_context()),
            Mode::Grounded,
            step_body(Mode::Grounded, Mode::OnLadder(b.spec_context()), body),
        ).kinematic,
        step_body(
            Mode::OnLadder(b.spec_context()),
            Mode::Grounded,
            step_body(Mode::Grounded, Mode::OnLadder(b.spec_context()), body),
        ).walk_driver,
        consistent(
            Mode::Grounded,
            step_body(
                Mode::OnLadder(b.spec_context()),
                Mode::Grounded,
                step_body(Mode::Grounded, Mode::OnLadder(b.spec_context()), body),
            ),
        ),
{
}

} // verus!

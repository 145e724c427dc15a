//! The character simulation assembled: one verified tick in the fixed pass
//! order — interaction detection against the start-of-tick mode, then the
//! single winning mode transition with its physics side effects, then the
//! mode-specific movement controller, then the animation frame selection on
//! the settled speed. The ordering guarantees that a single press cannot
//! both begin and end a climb in one tick, and that no controller acts on a
//! stale mode.

use vstd::prelude::*;

use crate::animation::{animation_post, animation_step, AnimationState};
use crate::input::InputFrame;
use crate::interaction::{interaction_post, player_interaction, InteractionOutcome, ProbeHit};
use crate::ladder::{climb_step, climb_step_post, ClimbStep};
use crate::math::Vec3;
use crate::movement::{jump_request, walk_intent, walk_intent_post, WalkIntent};
use crate::state::{
    consistent, step_body, step_mode, transition, LadderEndSignal, Mode, PhysicsBody, Triggers,
};
use crate::units::{JUMP_HEIGHT, SCALE, SIM_LIMIT};

verus! {

/// The one live controlled character: its locomotion mode, the physics
/// body's control state, the animation selector's latch, and the climb
/// controller's not-yet-drained exit signal. Its transform lives with the
/// physics collaborator and flows through each tick as a plain value.
pub struct Character {
    /// The entity that identifies this character in signals.
    pub entity: u64,
    /// Current locomotion mode; Grounded at spawn.
    pub mode: Mode,
    /// The physics body's control state.
    pub body: PhysicsBody,
    /// The animation selector's persistent latch.
    pub animation: AnimationState,
    /// A ladder-end raised by the climb controller this tick and drained by
    /// the state machine next tick: a same-tick, fire-and-forget
    /// notification, never a cancellable pending operation.
    pub pending_end: Option<LadderEndSignal>,
}

impl Character {
    /// The cross-tick invariant: the body is controlled as the mode demands,
    /// any climb context is usable, a pending exit signal belongs to this
    /// character and only to a running climb, and the animation latch is a
    /// real time.
    pub open spec fn wf(self) -> bool {
        &&& consistent(self.mode, self.body)
        &&& (self.mode matches Mode::OnLadder(ctx) ==> ctx.wf())
        &&& (self.pending_end matches Some(e) ==> (e.entity == self.entity
            && self.mode is OnLadder))
        &&& (self.animation.walk_start matches Some(t) ==> 0 <= t)
    }
}

/// Everything the collaborators report at the start of a tick: the jump
/// impulse state, the probe's ray and hits, the speed the driver settled on
/// last tick, the frame time, total elapsed time, and the character's
/// transform as integrated by the physics collaborator.
pub struct TickSensors {
    /// The physics collaborator still reports an active jump impulse.
    pub jump_active: bool,
    /// World origin of the interaction probe's ray.
    pub ray_origin: Vec3,
    /// World direction of the probe's ray, fixed-point unit length.
    pub ray_dir: Vec3,
    /// The probe's hits, in the order the spatial query returned them.
    pub hits: Vec<ProbeHit>,
    /// Horizontal speed the movement driver settled on, or nothing while no
    /// driver is attached.
    pub measured_speed: Option<i64>,
    /// Duration of this tick, in fixed-point seconds; at most one second.
    pub dt: i64,
    /// Total elapsed time, in fixed-point seconds.
    pub elapsed: i64,
    /// The character's position at the start of the tick.
    pub translation: Vec3,
    /// The character's facing at the start of the tick.
    pub facing: Vec3,
}

impl TickSensors {
    /// Usable sensor values: bounded geometry, usable hits, a nonnegative
    /// clock and a frame no longer than a second.
    pub open spec fn wf(self) -> bool {
        &&& self.ray_origin.in_world()
        &&& self.ray_dir.bounded(SCALE as int)
        &&& (forall|i: int| 0 <= i < self.hits@.len() ==> (#[trigger] self.hits@[i]).wf())
        &&& (self.measured_speed matches Some(s) ==> s >= 0)
        &&& 0 <= self.dt <= SCALE
        &&& 0 <= self.elapsed
        &&& self.translation.bounded(SIM_LIMIT as int)
        &&& self.facing.bounded(SCALE as int)
    }
}

/// Everything one tick hands back to the collaborators: the signals and
/// realignment of the interaction pass, the movement intent or climb step of
/// the active controller, the jump impulse request, the transform to apply,
/// and the animation frame to show.
pub struct TickOutput {
    /// What interaction detection decided.
    pub interaction: InteractionOutcome,
    /// The walk intent handed to the locomotion driver, while grounded or
    /// jumping.
    pub walk: Option<WalkIntent>,
    /// The jump impulse request with its target apex height, if one is
    /// issued this tick.
    pub jump: Option<i64>,
    /// The climb controller's step, while on a ladder.
    pub climb: Option<ClimbStep>,
    /// The character's position after the tick's controllers.
    pub translation: Vec3,
    /// The character's facing after the tick's controllers.
    pub facing: Vec3,
    /// The animation frame to show.
    pub frame: usize,
}

/// The triggers the state machine drains on a tick: the jump action's
/// state, and the ladder signals — the interaction pass's signal of this
/// very tick, or else the climb controller's exit held over from the last
/// tick.
pub open spec fn tick_triggers(
    c: Character,
    input: InputFrame,
    jump_active: bool,
    io: InteractionOutcome,
) -> Triggers {
    Triggers {
        jump_just_pressed: input.jump_just_pressed,
        jump_held: input.jump,
        jump_active: jump_active,
        ladder_begin: io.begin,
        ladder_end: if io.end is Some {
            io.end
        } else {
            c.pending_end
        },
    }
}

/// One simulation tick for the character, in the fixed pass order.
pub fn tick(c: &mut Character, input: &InputFrame, sensors: &TickSensors) -> (out: TickOutput)
    requires
        old(c).wf(),
        sensors.wf(),
        (old(c).animation.walk_start matches Some(t) ==> t <= sensors.elapsed),
    ensures
        final(c).wf(),
        final(c).entity == old(c).entity,
        // Interaction ran first, against the start-of-tick mode.
        interaction_post(
            old(c).entity,
            old(c).mode,
            input.interact_just_pressed,
            sensors.ray_origin,
            sensors.ray_dir,
            sensors.hits@,
            sensors.translation,
            sensors.facing,
            out.interaction,
        ),
        // Exactly one transition fired, on this tick's drained signals, and
        // its side effects reached the body before any controller ran.
        final(c).mode == step_mode(
            old(c).mode,
            tick_triggers(*old(c), *input, sensors.jump_active, out.interaction),
            old(c).entity,
        ),
        final(c).body == step_body(old(c).mode, final(c).mode, old(c).body),
        // While grounded or jumping, the walk controller produced the intent.
        ((final(c).mode is Grounded || final(c).mode is Jumping) ==> (out.walk matches Some(w)
            && walk_intent_post(*input, w))),
        (final(c).mode is OnLadder ==> out.walk is None),
        // The jump impulse is requested on the first jumping frame and while
        // the action stays held.
        ((final(c).mode is Jumping && (!(old(c).mode is Jumping) || input.jump)) ==> out.jump
            == Some(JUMP_HEIGHT)),
        ((final(c).mode is Jumping && old(c).mode is Jumping && !input.jump) ==> out.jump
            is None),
        (!(final(c).mode is Jumping) ==> out.jump is None),
        // While climbing, the climb controller moved the character within
        // the ladder's bounds, and its exit signal is held for next tick.
        (final(c).mode matches Mode::OnLadder(ctx) ==> (out.climb matches Some(cs)
            && climb_step_post(
            out.interaction.translation,
            ctx,
            input.up,
            input.down,
            sensors.dt as int,
            cs,
        ) && out.translation == cs.translation && (cs.end <==> final(c).pending_end == Some(
            LadderEndSignal { entity: old(c).entity },
        )) && (!cs.end ==> final(c).pending_end is None))),
        (!(final(c).mode is OnLadder) ==> (out.climb is None && out.translation
            == out.interaction.translation && final(c).pending_end is None)),
        out.facing == out.interaction.facing,
        out.translation.bounded(SIM_LIMIT as int + 2 * SCALE as int),
        // A single press cannot both begin and end a climb in one tick.
        !(out.interaction.begin is Some && out.interaction.end is Some),
        // The animation selector ran last, on the settled speed, and shows
        // the idle frame whenever no driver moves the character.
        animation_post(
            old(c).animation,
            (if final(c).body.walk_driver {
                sensors.measured_speed
            } else {
                None
            }),
            sensors.elapsed as int,
            out.frame,
            final(c).animation,
        ),
{
    let entity = c.entity;
    let io = player_interaction(
        entity,
        &c.mode,
        input.interact_just_pressed,
        sensors.ray_origin,
        sensors.ray_dir,
        &sensors.hits,
        sensors.translation,
        sensors.facing,
    );
    let merged_end = match io.end {
        Some(e) => Some(e),
        None => c.pending_end,
    };
    let trig = Triggers {
        jump_just_pressed: input.jump_just_pressed,
        jump_held: input.jump,
        jump_active: sensors.jump_active,
        ladder_begin: io.begin,
        ladder_end: merged_end,
    };
    let old_mode = c.mode;
    let was_jumping = match old_mode {
        Mode::Jumping => true,
        _ => false,
    };
    let next = transition(&old_mode, &mut c.body, &trig, entity);
    c.mode = next;
    c.pending_end = None;
    let mode_now = c.mode;
    let mut walk: Option<WalkIntent> = None;
    let mut jump: Option<i64> = None;
    let mut climb: Option<ClimbStep> = None;
    let mut new_translation = io.translation;
    match &mode_now {
        Mode::OnLadder(ctx) => {
            let cs = climb_step(io.translation, ctx, input.up, input.down, sensors.dt);
            if cs.end {
                c.pending_end = Some(LadderEndSignal { entity });
            }
            climb = Some(cs);
            new_translation = cs.translation;
        },
        Mode::Jumping => {
            walk = Some(walk_intent(input));
            jump = jump_request(!was_jumping, input.jump);
        },
        Mode::Grounded => {
            walk = Some(walk_intent(input));
        },
    }
    let speed = if c.body.walk_driver {
        sensors.measured_speed
    } else {
        None
    };
    let (frame, anim) = animation_step(&c.animation, speed, sensors.elapsed);
    c.animation = anim;
    TickOutput {
        interaction: io,
        walk,
        jump,
        climb,
        translation: new_translation,
        facing: io.facing,
        frame,
    }
}

/// The game's behavior set, reduced to its verified core. Building it
/// spawns the one controlled character in the state the subsystems
/// establish at startup: grounded, under dynamic physics with the walking
/// driver installed, idle animation, and no pending signals.
pub struct ReginoPlugins;

impl ReginoPlugins {
    /// Spawns the controlled character identified by `entity`.
    pub fn build(self, entity: u64) -> (c: Character)
        ensures
            c.wf(),
            c.entity == entity,
            c.mode == Mode::Grounded,
            c.body == (PhysicsBody {
                kinematic: false,
                linear_velocity: Vec3::spec_zero(),
                angular_velocity: Vec3::spec_zero(),
                walk_driver: true,
            }),
            c.animation.walk_start is None,
            c.pending_end is None,
    {
        Character {
            entity,
            mode: Mode::Grounded,
            body: PhysicsBody {
                kinematic: false,
                linear_velocity: Vec3::zero(),
                angular_velocity: Vec3::zero(),
                walk_driver: true,
            },
            animation: AnimationState { walk_start: None },
            pending_end: None,
        }
    }
}

} // verus!

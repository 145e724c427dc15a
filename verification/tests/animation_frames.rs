//! The animation frame selector: the idle reset, the latched walk start, and
//! the two-frame cycle.

use regino::animation::{animation_step, AnimationState, FRAME_IDLE, FRAME_STRIDE};

#[test]
fn no_driver_shows_idle_and_clears_the_latch() {
    let state = AnimationState { walk_start: Some(100) };
    let (frame, next) = animation_step(&state, None, 500);
    assert_eq!(frame, FRAME_IDLE);
    assert!(next.walk_start.is_none());
}

#[test]
fn zero_speed_shows_idle_and_clears_the_latch() {
    let state = AnimationState { walk_start: Some(100) };
    let (frame, next) = animation_step(&state, Some(0), 500);
    assert_eq!(frame, FRAME_IDLE);
    assert!(next.walk_start.is_none());
}

#[test]
fn first_moving_frame_latches_the_start() {
    let state = AnimationState { walk_start: None };
    let (frame, next) = animation_step(&state, Some(1500), 730);
    // Phase 0 of the cycle shows the idle frame.
    assert_eq!(frame, FRAME_IDLE);
    assert_eq!(next.walk_start, Some(730));
}

#[test]
fn the_cycle_switches_at_its_stride_phase() {
    let state = AnimationState { walk_start: Some(0) };
    // Cycle lasts 0.4 s; the stride frame shows from phase 0.6, i.e. 0.24 s.
    let (frame, _) = animation_step(&state, Some(1500), 239);
    assert_eq!(frame, FRAME_IDLE);
    let (frame, _) = animation_step(&state, Some(1500), 240);
    assert_eq!(frame, FRAME_STRIDE);
    let (frame, _) = animation_step(&state, Some(1500), 399);
    assert_eq!(frame, FRAME_STRIDE);
}

#[test]
fn the_cycle_wraps_around() {
    let state = AnimationState { walk_start: Some(0) };
    let (frame, _) = animation_step(&state, Some(1500), 400);
    assert_eq!(frame, FRAME_IDLE);
    let (frame, _) = animation_step(&state, Some(1500), 650);
    assert_eq!(frame, FRAME_STRIDE);
}

#[test]
fn the_latch_survives_while_moving() {
    let state = AnimationState { walk_start: Some(100) };
    let (_, next) = animation_step(&state, Some(2000), 500);
    assert_eq!(next.walk_start, Some(100));
}

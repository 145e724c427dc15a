//! The locomotion state machine: transition precedence, ignored signals, and
//! the physics side effects of entering and leaving a ladder.

use regino::ladder::LadderContext;
use regino::math::Vec3;
use regino::state::{
    transition, LadderBeginSignal, LadderEndSignal, Mode, PhysicsBody, Triggers,
};

fn dynamic_body() -> PhysicsBody {
    PhysicsBody {
        kinematic: false,
        linear_velocity: Vec3 { x: 5, y: 6, z: 7 },
        angular_velocity: Vec3 { x: 1, y: 2, z: 3 },
        walk_driver: true,
    }
}

fn quiet() -> Triggers {
    Triggers {
        jump_just_pressed: false,
        jump_held: false,
        jump_active: false,
        ladder_begin: None,
        ladder_end: None,
    }
}

fn begin_for(entity: u64) -> LadderBeginSignal {
    LadderBeginSignal {
        entity,
        face_normal: Vec3 { x: 0, y: 0, z: 1000 },
        top: Vec3 { x: 0, y: 3000, z: 0 },
        bottom: Vec3 { x: 0, y: 500, z: 0 },
    }
}

#[test]
fn jump_press_enters_jumping() {
    let mut body = dynamic_body();
    let trig = Triggers { jump_just_pressed: true, ..quiet() };
    let next = transition(&Mode::Grounded, &mut body, &trig, 1);
    assert_eq!(next, Mode::Jumping);
    assert_eq!(body, dynamic_body());
}

#[test]
fn jumping_holds_while_impulse_active_and_held() {
    let mut body = dynamic_body();
    let trig = Triggers { jump_held: true, jump_active: true, ..quiet() };
    assert_eq!(transition(&Mode::Jumping, &mut body, &trig, 1), Mode::Jumping);
    // Still airborne but released: no transition fires.
    let trig = Triggers { jump_active: true, ..quiet() };
    assert_eq!(transition(&Mode::Jumping, &mut body, &trig, 1), Mode::Jumping);
}

#[test]
fn jumping_lands_when_spent_and_released() {
    let mut body = dynamic_body();
    assert_eq!(transition(&Mode::Jumping, &mut body, &quiet(), 1), Mode::Grounded);
    assert_eq!(body, dynamic_body());
}

#[test]
fn jump_press_wins_over_ladder_begin() {
    let mut body = dynamic_body();
    let trig = Triggers {
        jump_just_pressed: true,
        ladder_begin: Some(begin_for(1)),
        ..quiet()
    };
    assert_eq!(transition(&Mode::Grounded, &mut body, &trig, 1), Mode::Jumping);
}

#[test]
fn ladder_begin_enters_onladder_with_kinematic_body() {
    let mut body = dynamic_body();
    let trig = Triggers { ladder_begin: Some(begin_for(1)), ..quiet() };
    let next = transition(&Mode::Grounded, &mut body, &trig, 1);
    let expected = LadderContext {
        face_normal: Vec3 { x: 0, y: 0, z: 1000 },
        top: Vec3 { x: 0, y: 3000, z: 0 },
        bottom: Vec3 { x: 0, y: 500, z: 0 },
    };
    assert_eq!(next, Mode::OnLadder(expected));
    assert!(body.kinematic);
    assert_eq!(body.linear_velocity, Vec3 { x: 0, y: 0, z: 0 });
    assert_eq!(body.angular_velocity, Vec3 { x: 0, y: 0, z: 0 });
    assert!(!body.walk_driver);
}

#[test]
fn ladder_begin_for_another_character_is_ignored() {
    let mut body = dynamic_body();
    let trig = Triggers { ladder_begin: Some(begin_for(9)), ..quiet() };
    assert_eq!(transition(&Mode::Grounded, &mut body, &trig, 1), Mode::Grounded);
    assert_eq!(body, dynamic_body());
}

#[test]
fn ladder_end_returns_to_grounded_and_restores_dynamics() {
    let ctx = LadderContext {
        face_normal: Vec3 { x: 0, y: 0, z: 1000 },
        top: Vec3 { x: 0, y: 3000, z: 0 },
        bottom: Vec3 { x: 0, y: 500, z: 0 },
    };
    let mut body = PhysicsBody {
        kinematic: true,
        linear_velocity: Vec3 { x: 0, y: 0, z: 0 },
        angular_velocity: Vec3 { x: 0, y: 0, z: 0 },
        walk_driver: false,
    };
    let trig = Triggers { ladder_end: Some(LadderEndSignal { entity: 1 }), ..quiet() };
    assert_eq!(transition(&Mode::OnLadder(ctx), &mut body, &trig, 1), Mode::Grounded);
    assert!(!body.kinematic);
    assert!(body.walk_driver);
}

#[test]
fn ladder_end_while_grounded_is_a_no_op() {
    let mut body = dynamic_body();
    let trig = Triggers { ladder_end: Some(LadderEndSignal { entity: 1 }), ..quiet() };
    assert_eq!(transition(&Mode::Grounded, &mut body, &trig, 1), Mode::Grounded);
    assert_eq!(body, dynamic_body());
}

#[test]
fn jump_round_trip_leaves_the_body_untouched() {
    let mut body = dynamic_body();
    let press = Triggers { jump_just_pressed: true, ..quiet() };
    let m1 = transition(&Mode::Grounded, &mut body, &press, 1);
    let m2 = transition(&m1, &mut body, &quiet(), 1);
    assert_eq!(m2, Mode::Grounded);
    assert_eq!(body, dynamic_body());
}

//! The ground/air movement controller: accumulation, the diagonal speed
//! clamp, facing, and the jump impulse decision.

use regino::input::InputFrame;
use regino::math::Vec3;
use regino::movement::{jump_request, walk_intent};
use regino::units::{HALF_PLAYER_HEIGHT, JUMP_HEIGHT, MOVEMENT_SPEED};

fn held(up: bool, down: bool, left: bool, right: bool) -> InputFrame {
    InputFrame {
        up,
        down,
        left,
        right,
        jump: false,
        jump_just_pressed: false,
        interact_just_pressed: false,
    }
}

#[test]
fn no_keys_give_zero_vector() {
    let r = walk_intent(&held(false, false, false, false));
    assert_eq!(r.desired_velocity, Vec3 { x: 0, y: 0, z: 0 });
    assert_eq!(r.desired_forward, Vec3 { x: 0, y: 0, z: 0 });
    assert_eq!(r.float_height, HALF_PLAYER_HEIGHT);
}

#[test]
fn single_directions_run_at_full_speed() {
    assert_eq!(
        walk_intent(&held(true, false, false, false)).desired_velocity,
        Vec3 { x: 0, y: 0, z: -MOVEMENT_SPEED }
    );
    assert_eq!(
        walk_intent(&held(false, true, false, false)).desired_velocity,
        Vec3 { x: 0, y: 0, z: MOVEMENT_SPEED }
    );
    assert_eq!(
        walk_intent(&held(false, false, true, false)).desired_velocity,
        Vec3 { x: -MOVEMENT_SPEED, y: 0, z: 0 }
    );
    assert_eq!(
        walk_intent(&held(false, false, false, true)).desired_velocity,
        Vec3 { x: MOVEMENT_SPEED, y: 0, z: 0 }
    );
}

#[test]
fn opposite_directions_cancel() {
    let r = walk_intent(&held(true, true, false, false));
    assert_eq!(r.desired_velocity, Vec3 { x: 0, y: 0, z: 0 });
    let r = walk_intent(&held(true, true, true, true));
    assert_eq!(r.desired_velocity, Vec3 { x: 0, y: 0, z: 0 });
}

#[test]
fn diagonals_are_clamped_to_the_speed() {
    for (up, down, left, right, sx, sz) in [
        (true, false, false, true, 1413i64, -1413i64),
        (true, false, true, false, -1413, -1413),
        (false, true, false, true, 1413, 1413),
        (false, true, true, false, -1413, 1413),
    ] {
        let r = walk_intent(&held(up, down, left, right));
        assert_eq!(r.desired_velocity, Vec3 { x: sx, y: 0, z: sz });
        let m = r.desired_velocity.x * r.desired_velocity.x
            + r.desired_velocity.z * r.desired_velocity.z;
        assert!(m <= MOVEMENT_SPEED * MOVEMENT_SPEED);
    }
}

#[test]
fn every_combination_respects_the_speed_cap() {
    for bits in 0..16u32 {
        let r = walk_intent(&held(bits & 1 != 0, bits & 2 != 0, bits & 4 != 0, bits & 8 != 0));
        let m = r.desired_velocity.x * r.desired_velocity.x
            + r.desired_velocity.z * r.desired_velocity.z;
        assert!(m <= MOVEMENT_SPEED * MOVEMENT_SPEED);
        let f =
            r.desired_forward.x * r.desired_forward.x + r.desired_forward.z * r.desired_forward.z;
        assert!(f <= 1000 * 1000);
    }
}

#[test]
fn facing_follows_the_movement() {
    let r = walk_intent(&held(true, false, false, false));
    assert_eq!(r.desired_forward, Vec3 { x: 0, y: 0, z: -1000 });
    let r = walk_intent(&held(true, false, false, true));
    assert_eq!(r.desired_forward, Vec3 { x: 706, y: 0, z: -706 });
}

#[test]
fn jump_impulse_on_entry_and_while_held() {
    assert_eq!(jump_request(true, false), Some(JUMP_HEIGHT));
    assert_eq!(jump_request(true, true), Some(JUMP_HEIGHT));
    assert_eq!(jump_request(false, true), Some(JUMP_HEIGHT));
    assert_eq!(jump_request(false, false), None);
}

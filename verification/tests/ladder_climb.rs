//! The ladder climb controller: movement within the bounds, the top exit
//! with its backward push, and the bottom exit in place.

use regino::ladder::{climb_step, LadderContext};
use regino::math::Vec3;

fn ladder() -> LadderContext {
    LadderContext {
        face_normal: Vec3 { x: 0, y: 0, z: 1000 },
        top: Vec3 { x: 0, y: 3000, z: -2000 },
        bottom: Vec3 { x: 0, y: 0, z: -2000 },
    }
}

#[test]
fn up_climbs_at_fixed_speed() {
    let at = Vec3 { x: 0, y: 1000, z: -2000 };
    // 0.1 s at 2 units/s climbs 0.2 units.
    let r = climb_step(at, &ladder(), true, false, 100);
    assert!(!r.end);
    assert_eq!(r.translation, Vec3 { x: 0, y: 1200, z: -2000 });
}

#[test]
fn down_climbs_at_fixed_speed() {
    let at = Vec3 { x: 0, y: 1000, z: -2000 };
    let r = climb_step(at, &ladder(), false, true, 100);
    assert!(!r.end);
    assert_eq!(r.translation, Vec3 { x: 0, y: 800, z: -2000 });
}

#[test]
fn neither_or_both_held_moves_nothing() {
    let at = Vec3 { x: 0, y: 1000, z: -2000 };
    let r = climb_step(at, &ladder(), false, false, 100);
    assert!(!r.end);
    assert_eq!(r.translation, at);
    let r = climb_step(at, &ladder(), true, true, 100);
    assert!(!r.end);
    assert_eq!(r.translation, at);
}

#[test]
fn holding_up_past_the_top_exits_with_backward_push() {
    // Ladder from y=0 to y=3; climbing from y=2.9 with 0.4 s frames.
    let mut at = Vec3 { x: 0, y: 2900, z: -2000 };
    let mut exited = false;
    for _ in 0..4 {
        let r = climb_step(at, &ladder(), true, false, 400);
        at = r.translation;
        if r.end {
            assert!(r.pushed_back);
            exited = true;
            break;
        }
    }
    // 2900 -> 3700 crosses the 3000 + 500 ceiling; the next frame exits and
    // pushes the character back off the face by 0.8 of its width.
    assert!(exited);
    assert_eq!(at, Vec3 { x: 0, y: 3700, z: -2800 });
}

#[test]
fn holding_down_at_the_bottom_exits_in_place() {
    // Within epsilon = 0.1 of the bottom: y = 0.05 relative to bottom 0.
    let at = Vec3 { x: 0, y: 50, z: -2000 };
    let r = climb_step(at, &ladder(), false, true, 100);
    assert!(r.end);
    assert!(!r.pushed_back);
    assert_eq!(r.translation, at);
}

#[test]
fn down_just_above_the_margin_still_climbs() {
    let at = Vec3 { x: 0, y: 100, z: -2000 };
    let r = climb_step(at, &ladder(), false, true, 10);
    assert!(!r.end);
    assert_eq!(r.translation, Vec3 { x: 0, y: 80, z: -2000 });
}

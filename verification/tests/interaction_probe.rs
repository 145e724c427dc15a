//! Interaction detection: probe scanning order, the alignment projection,
//! the derived climb bounds, and the signals raised per mode.

use regino::interaction::{player_interaction, LadderHit, ProbeHit};
use regino::ladder::LadderContext;
use regino::math::Vec3;
use regino::state::Mode;

fn ladder_hit() -> LadderHit {
    LadderHit {
        face_normal: Vec3 { x: 0, y: 0, z: 1000 },
        position: Vec3 { x: 0, y: 1500, z: -2500 },
        aabb_center_y: 1500,
        aabb_half_y: 1500,
    }
}

fn origin() -> Vec3 {
    Vec3 { x: 0, y: 500, z: 0 }
}

fn forward() -> Vec3 {
    Vec3 { x: 0, y: 0, z: -1000 }
}

fn standing() -> Vec3 {
    Vec3 { x: 0, y: 500, z: 0 }
}

fn old_facing() -> Vec3 {
    Vec3 { x: 0, y: 0, z: 1000 }
}

#[test]
fn interact_aligns_to_the_first_ladder_hit() {
    // The probe meets the ladder 2 units ahead with face normal +z.
    let hits = vec![ProbeHit { entity: 42, time_of_impact: 2000, ladder: Some(ladder_hit()) }];
    let r = player_interaction(
        7,
        &Mode::Grounded,
        true,
        origin(),
        forward(),
        &hits,
        standing(),
        old_facing(),
    );
    // Repositioned onto the ladder's face: horizontal from the projection,
    // height kept.
    assert_eq!(r.translation, Vec3 { x: 0, y: 500, z: -2000 });
    // Turned to face opposite the ladder's normal.
    assert_eq!(r.facing, Vec3 { x: 0, y: 0, z: -1000 });
    assert!(r.end.is_none());
    let sig = r.begin.expect("a ladder-begin signal");
    assert_eq!(sig.entity, 7);
    assert_eq!(sig.face_normal, Vec3 { x: 0, y: 0, z: 1000 });
    // Bounds from the collider's box: top = center + half, bottom = center -
    // half + half the character's height.
    assert_eq!(sig.top, Vec3 { x: 0, y: 3000, z: -2000 });
    assert_eq!(sig.bottom, Vec3 { x: 0, y: 500, z: -2000 });
}

#[test]
fn non_ladder_hits_are_skipped() {
    let hits = vec![
        ProbeHit { entity: 3, time_of_impact: 500, ladder: None },
        ProbeHit { entity: 42, time_of_impact: 2000, ladder: Some(ladder_hit()) },
    ];
    let r = player_interaction(
        7,
        &Mode::Grounded,
        true,
        origin(),
        forward(),
        &hits,
        standing(),
        old_facing(),
    );
    assert!(r.begin.is_some());
    assert_eq!(r.translation, Vec3 { x: 0, y: 500, z: -2000 });
}

#[test]
fn no_ladder_hit_absorbs_the_press() {
    let hits = vec![ProbeHit { entity: 3, time_of_impact: 500, ladder: None }];
    let r = player_interaction(
        7,
        &Mode::Grounded,
        true,
        origin(),
        forward(),
        &hits,
        standing(),
        old_facing(),
    );
    assert!(r.begin.is_none());
    assert!(r.end.is_none());
    assert_eq!(r.translation, standing());
    assert_eq!(r.facing, old_facing());
}

#[test]
fn interact_while_climbing_raises_ladder_end() {
    let ctx = LadderContext {
        face_normal: Vec3 { x: 0, y: 0, z: 1000 },
        top: Vec3 { x: 0, y: 3000, z: -2000 },
        bottom: Vec3 { x: 0, y: 500, z: -2000 },
    };
    let hits = vec![ProbeHit { entity: 42, time_of_impact: 2000, ladder: Some(ladder_hit()) }];
    let r = player_interaction(
        7,
        &Mode::OnLadder(ctx),
        true,
        origin(),
        forward(),
        &hits,
        standing(),
        old_facing(),
    );
    assert!(r.begin.is_none());
    assert_eq!(r.end.expect("a ladder-end signal").entity, 7);
    assert_eq!(r.translation, standing());
}

#[test]
fn nothing_happens_without_the_press() {
    let hits = vec![ProbeHit { entity: 42, time_of_impact: 2000, ladder: Some(ladder_hit()) }];
    let r = player_interaction(
        7,
        &Mode::Grounded,
        false,
        origin(),
        forward(),
        &hits,
        standing(),
        old_facing(),
    );
    assert!(r.begin.is_none());
    assert!(r.end.is_none());
    assert_eq!(r.translation, standing());
}

#[test]
fn interact_while_jumping_is_absorbed() {
    let hits = vec![ProbeHit { entity: 42, time_of_impact: 2000, ladder: Some(ladder_hit()) }];
    let r = player_interaction(
        7,
        &Mode::Jumping,
        true,
        origin(),
        forward(),
        &hits,
        standing(),
        old_facing(),
    );
    assert!(r.begin.is_none());
    assert!(r.end.is_none());
}

#[test]
fn realigning_from_the_aligned_spot_is_stable() {
    // Align once, then interact again from the aligned position with the
    // same ladder: the projection lands on the same spot.
    let hits = vec![ProbeHit { entity: 42, time_of_impact: 500, ladder: Some(ladder_hit()) }];
    let first = player_interaction(
        7,
        &Mode::Grounded,
        true,
        origin(),
        forward(),
        &hits,
        standing(),
        old_facing(),
    );
    // The probe now starts on the aligned spot; a zero-length ray reports
    // the aligned spot itself as the hit point.
    let again = player_interaction(
        7,
        &Mode::Grounded,
        true,
        first.translation,
        forward(),
        &vec![ProbeHit { entity: 42, time_of_impact: 0, ladder: Some(ladder_hit()) }],
        first.translation,
        first.facing,
    );
    assert_eq!(again.translation, first.translation);
}

//! The ladder geometry builder: world extents and position from a node's
//! mesh bounding box and transform.

use regino::math::Vec3;
use regino::terrain::make_ladder;

#[test]
fn unscaled_node_keeps_mesh_extents() {
    let r = make_ladder(
        Vec3 { x: 0, y: 1500, z: 0 },
        Vec3 { x: 500, y: 1500, z: 50 },
        Vec3 { x: 0, y: 0, z: -2500 },
        Vec3 { x: 1000, y: 1000, z: 1000 },
    );
    assert_eq!(r.ladder.face_normal, Vec3 { x: 0, y: 0, z: 1000 });
    assert_eq!(r.half_extents, Vec3 { x: 500, y: 1500, z: 50 });
    assert_eq!(r.position, Vec3 { x: 0, y: 1500, z: -2500 });
}

#[test]
fn node_scale_stretches_the_collider() {
    let r = make_ladder(
        Vec3 { x: 100, y: 1000, z: 0 },
        Vec3 { x: 500, y: 1000, z: 50 },
        Vec3 { x: 3000, y: 200, z: -2500 },
        Vec3 { x: 2000, y: 3000, z: 500 },
    );
    // Half-extents scaled per axis: 0.5*2, 1*3, 0.05*0.5.
    assert_eq!(r.half_extents, Vec3 { x: 1000, y: 3000, z: 25 });
    // Position offset by the scaled bounding-box center.
    assert_eq!(r.position, Vec3 { x: 3200, y: 3200, z: -2500 });
}

#[test]
fn the_face_normal_is_the_forward_axis() {
    let r = make_ladder(
        Vec3 { x: 0, y: 0, z: 0 },
        Vec3 { x: 1, y: 1, z: 1 },
        Vec3 { x: 0, y: 0, z: 0 },
        Vec3 { x: 1000, y: 1000, z: 1000 },
    );
    assert_eq!(r.ladder.face_normal, Vec3 { x: 0, y: 0, z: 1000 });
}

//! The ladder geometry builder: from a tagged scene node's mesh bounding box
//! and world transform, computes the climbable collider's world extents and
//! position and attaches the ladder descriptor.

use vstd::prelude::*;

use crate::math::{tdiv, Vec3};
use crate::units::SCALE;

verus! {

/// A climbable face authored into the world: static, immutable after
/// creation, carrying the face's outward unit normal. Many ladders may
/// exist; each is independent.
#[derive(Clone, Copy, Debug, PartialEq, Eq, Structural)]
pub struct Ladder {
    /// Outward unit normal of the climbable face, fixed-point scaled.
    pub face_normal: Vec3,
}

/// A ladder as built from scene geometry: the descriptor, and the cuboid
/// collider's world half-extents and position that the interaction probe
/// later reads.
#[derive(Clone, Copy, Debug, PartialEq, Eq, Structural)]
pub struct BuiltLadder {
    /// The descriptor attached to the collider.
    pub ladder: Ladder,
    /// Half-extents of the cuboid collider, scaled to world size.
    pub half_extents: Vec3,
    /// World position of the collider's center.
    pub position: Vec3,
}

/// One coordinate of a mesh-local length scaled to world size by the node's
/// scale factor.
pub open spec fn scaled(v: int, scale: int) -> int {
    tdiv(v * scale, SCALE as int)
}

/// Builds the climbable collider for a ladder node: the mesh bounding box's
/// half-extents are scaled by the node's world scale, the collider sits at
/// the node's translation offset by the scaled bounding-box center, and the
/// face normal is the fixed forward axis. A ladder node is authored without
/// rotation: only a single forward face is supported. A node whose
/// bounding-box derivation fails upstream is simply dropped and produces no
/// climbable surface.
pub fn make_ladder(
    mesh_center: Vec3,
    mesh_half_extents: Vec3,
    node_translation: Vec3,
    node_scale: Vec3,
) -> (r: BuiltLadder)
    requires
        mesh_center.bounded(1_000_000),
        mesh_half_extents.bounded(1_000_000),
        mesh_half_extents.x >= 0,
        mesh_half_extents.y >= 0,
        mesh_half_extents.z >= 0,
        node_scale.bounded(500_000),
        node_scale.x >= 0,
        node_scale.y >= 0,
        node_scale.z >= 0,
        node_translation.bounded(500_000_000),
    ensures
        r.ladder.face_normal == (Vec3 { x: 0, y: 0, z: SCALE }),
        r.half_extents.x == scaled(mesh_half_extents.x as int, node_scale.x as int),
        r.half_extents.y == scaled(mesh_half_extents.y as int, node_scale.y as int),
        r.half_extents.z == scaled(mesh_half_extents.z as int, node_scale.z as int),
        r.position.x == node_translation.x + scaled(mesh_center.x as int, node_scale.x as int),
        r.position.y == node_translation.y + scaled(mesh_center.y as int, node_scale.y as int),
        r.position.z == node_translation.z + scaled(mesh_center.z as int, node_scale.z as int),
        r.position.in_world(),
        r.half_extents.x >= 0,
        r.half_extents.y >= 0,
        r.half_extents.z >= 0,
        r.half_extents.bounded(crate::units::COORD_LIMIT as int),
{
    proof {
        crate::math::lemma_mul_bound(mesh_half_extents.x as int, node_scale.x as int, 1_000_000, 500_000);
        crate::math::lemma_mul_bound(mesh_half_extents.y as int, node_scale.y as int, 1_000_000, 500_000);
        crate::math::lemma_mul_bound(mesh_half_extents.z as int, node_scale.z as int, 1_000_000, 500_000);
        crate::math::lemma_mul_bound(mesh_center.x as int, node_scale.x as int, 1_000_000, 500_000);
        crate::math::lemma_mul_bound(mesh_center.y as int, node_scale.y as int, 1_000_000, 500_000);
        crate::math::lemma_mul_bound(mesh_center.z as int, node_scale.z as int, 1_000_000, 500_000);
        lemma_scaled_small(mesh_half_extents.x as int, node_scale.x as int);
        lemma_scaled_small(mesh_half_extents.y as int, node_scale.y as int);
        lemma_scaled_small(mesh_half_extents.z as int, node_scale.z as int);
        lemma_scaled_small(mesh_center.x as int, node_scale.x as int);
        lemma_scaled_small(mesh_center.y as int, node_scale.y as int);
        lemma_scaled_small(mesh_center.z as int, node_scale.z as int);
    }
    let hx: i64 = crate::math::div_trunc(mesh_half_extents.x * node_scale.x, SCALE);
    let hy: i64 = crate::math::div_trunc(mesh_half_extents.y * node_scale.y, SCALE);
    let hz: i64 = crate::math::div_trunc(mesh_half_extents.z * node_scale.z, SCALE);
    let px: i64 = node_translation.x + crate::math::div_trunc(mesh_center.x * node_scale.x, SCALE);
    let py: i64 = node_translation.y + crate::math::div_trunc(mesh_center.y * node_scale.y, SCALE);
    let pz: i64 = node_translation.z + crate::math::div_trunc(mesh_center.z * node_scale.z, SCALE);
    proof {
        lemma_scaled_nonneg(mesh_half_extents.x as int, node_scale.x as int);
        lemma_scaled_nonneg(mesh_half_extents.y as int, node_scale.y as int);
        lemma_scaled_nonneg(mesh_half_extents.z as int, node_scale.z as int);
    }
    BuiltLadder {
        ladder: Ladder { face_normal: Vec3 { x: 0, y: 0, z: SCALE } },
        half_extents: Vec3 { x: hx, y: hy, z: hz },
        position: Vec3 { x: px, y: py, z: pz },
    }
}

/// A scaled coordinate of bounded factors stays within half the world bound.
proof fn lemma_scaled_small(v: int, scale: int)
    requires
        -1_000_000 <= v <= 1_000_000,
        -500_000 <= scale <= 500_000,
    ensures
        -500_000_000 <= scaled(v, scale) <= 500_000_000,
{
    crate::math::lemma_mul_bound(v, scale, 1_000_000, 500_000);
    vstd::arithmetic::div_mod::lemma_div_is_ordered(
        crate::math::iabs(v * scale),
        500_000_000_000,
        SCALE as int,
    );
    lemma_tdiv_abs(v * scale, SCALE as int);
}

/// Scaling nonnegative lengths by a nonnegative factor keeps them
/// nonnegative.
proof fn lemma_scaled_nonneg(v: int, scale: int)
    requires
        0 <= v,
        0 <= scale,
    ensures
        0 <= scaled(v, scale),
{
    assert(v * scale >= 0) by (nonlinear_arith)
        requires
            0 <= v,
            0 <= scale,
    ;
    vstd::arithmetic::div_mod::lemma_div_pos_is_pos(v * scale, SCALE as int);
}

/// Truncating division is bounded by the absolute quotient.
proof fn lemma_tdiv_abs(a: int, b: int)
    requires
        0 < b,
    ensures
        crate::math::iabs(tdiv(a, b)) == crate::math::iabs(a) / b,
{
    if a >= 0 {
        vstd::arithmetic::div_mod::lemma_div_pos_is_pos(a, b);
    } else {
        vstd::arithmetic::div_mod::lemma_div_pos_is_pos(-a, b);
    }
}

} // verus!

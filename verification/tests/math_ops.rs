//! Exact values of the fixed-point math primitives.

use regino::math::{div_trunc, isqrt, Vec3};

#[test]
fn isqrt_small_values() {
    assert_eq!(isqrt(0), 0);
    assert_eq!(isqrt(1), 1);
    assert_eq!(isqrt(2), 1);
    assert_eq!(isqrt(3), 1);
    assert_eq!(isqrt(4), 2);
    assert_eq!(isqrt(99), 9);
    assert_eq!(isqrt(100), 10);
}

#[test]
fn isqrt_movement_magnitudes() {
    // The squared magnitude of a diagonal of two held directions.
    assert_eq!(isqrt(8_000_000), 2828);
    // An exact square stays exact.
    assert_eq!(isqrt(4_000_000), 2000);
}

#[test]
fn div_trunc_rounds_toward_zero() {
    assert_eq!(div_trunc(7, 2), 3);
    assert_eq!(div_trunc(-7, 2), -3);
    assert_eq!(div_trunc(6, 3), 2);
    assert_eq!(div_trunc(-6, 3), -2);
    assert_eq!(div_trunc(0, 5), 0);
}

#[test]
fn vector_componentwise_ops() {
    let a = Vec3 { x: 1, y: -2, z: 3 };
    let b = Vec3 { x: 10, y: 20, z: -30 };
    assert_eq!(a.add(b), Vec3 { x: 11, y: 18, z: -27 });
    assert_eq!(a.sub(b), Vec3 { x: -9, y: -22, z: 33 });
    let n = Vec3 { x: 0, y: 0, z: 1000 };
    assert_eq!(a.dot(n), 3000);
}

#[test]
fn clamp_keeps_short_vectors() {
    let v = Vec3 { x: 300, y: 0, z: -400 };
    assert_eq!(v.clamp_len_max(2000), v);
    // Exactly at the cap is kept too.
    let axis = Vec3 { x: 0, y: 0, z: -2000 };
    assert_eq!(axis.clamp_len_max(2000), axis);
}

#[test]
fn clamp_scales_long_vectors() {
    let v = Vec3 { x: 2000, y: 0, z: -2000 };
    let r = v.clamp_len_max(2000);
    assert_eq!(r, Vec3 { x: 1413, y: 0, z: -1413 });
    assert!(r.x * r.x + r.z * r.z <= 2000 * 2000);
}

#[test]
fn normalize_axis_and_zero() {
    let v = Vec3 { x: 0, y: 0, z: -2000 };
    assert_eq!(v.normalize_or_zero(), Vec3 { x: 0, y: 0, z: -1000 });
    let z = Vec3 { x: 0, y: 0, z: 0 };
    assert_eq!(z.normalize_or_zero(), z);
    // A short vector is scaled up toward unit length.
    let s = Vec3 { x: 3, y: 0, z: 4 };
    assert_eq!(s.normalize_or_zero(), Vec3 { x: 600, y: 0, z: 800 });
}

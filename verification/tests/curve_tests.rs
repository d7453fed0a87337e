//! Curve evaluation and frame tests: constant curves, endpoint
//! interpolation, exact mid-parameter values, and the degenerate-frame
//! fallbacks.

use road_mesh::curve::{evaluate_frame, evaluate_point, EPSILON};
use road_mesh::math::{isqrt, lerp, normalize, Vec3i, SCALE};

#[test]
fn lerp_exact_values() {
    assert_eq!(lerp(0, 1_000_000, 250_000), 250_000);
    assert_eq!(lerp(-1_000_000, 1_000_000, 500_000), 0);
    assert_eq!(lerp(5, 5, 777_777), 5);
    assert_eq!(lerp(10, 20, 0), 10);
    assert_eq!(lerp(10, 20, SCALE), 20);
}

#[test]
fn isqrt_exact_values() {
    assert_eq!(isqrt(0), 0);
    assert_eq!(isqrt(1), 1);
    assert_eq!(isqrt(10), 3);
    assert_eq!(isqrt(25_000_000_000_000), 5_000_000);
    assert_eq!(isqrt(24_999_999_999_999), 4_999_999);
}

#[test]
fn normalize_exact_values() {
    let v = normalize(Vec3i::new(3_000_000, 4_000_000, 0));
    assert_eq!(v, Vec3i::new(600_000, 800_000, 0));
    let w = normalize(Vec3i::new(0, -7, 0));
    assert_eq!(w, Vec3i::new(0, -SCALE, 0));
}

#[test]
fn constant_curve_returns_the_point() {
    let a = Vec3i::new(1_500_000, -2_000_000, 3_000_000);
    for t in [-1_000_000, 0, 123_456, 500_000, SCALE, 1_500_000, 2_000_000] {
        assert_eq!(evaluate_point(a, a, a, a, t), a);
    }
}

#[test]
fn curve_hits_endpoints() {
    let p0 = Vec3i::new(-4_000_000, 2_000_000, 1_000_000);
    let p1 = Vec3i::new(1_000_000, 7_000_000, -3_000_000);
    let p2 = Vec3i::new(5_000_000, -1_000_000, 2_500_000);
    let p3 = Vec3i::new(9_000_000, 0, -500_000);
    assert_eq!(evaluate_point(p0, p1, p2, p3, 0), p0);
    assert_eq!(evaluate_point(p0, p1, p2, p3, SCALE), p3);
}

#[test]
fn curve_exact_midpoint_colinear() {
    let p0 = Vec3i::new(0, 0, 0);
    let p1 = Vec3i::new(3_000_000, 0, 0);
    let p2 = Vec3i::new(6_000_000, 0, 0);
    let p3 = Vec3i::new(9_000_000, 0, 0);
    assert_eq!(
        evaluate_point(p0, p1, p2, p3, 500_000),
        Vec3i::new(4_500_000, 0, 0)
    );
}

#[test]
fn curve_exact_midpoint_planar() {
    let p0 = Vec3i::new(0, 0, 0);
    let p1 = Vec3i::new(1_000_000, 0, 0);
    let p2 = Vec3i::new(1_000_000, 1_000_000, 0);
    let p3 = Vec3i::new(0, 1_000_000, 0);
    assert_eq!(
        evaluate_point(p0, p1, p2, p3, 500_000),
        Vec3i::new(750_000, 500_000, 0)
    );
}

#[test]
fn frame_on_straight_horizontal_curve() {
    let p0 = Vec3i::new(0, 0, 0);
    let p1 = Vec3i::new(3_000_000, 0, 0);
    let p2 = Vec3i::new(6_000_000, 0, 0);
    let p3 = Vec3i::new(9_000_000, 0, 0);
    for t in [0, EPSILON, 250_000, 500_000, SCALE - EPSILON, SCALE] {
        let f = evaluate_frame(p0, p1, p2, p3, t);
        // The central difference runs against the parameter direction.
        assert_eq!(f.tangent, Vec3i::new(-SCALE, 0, 0));
        assert_eq!(f.up, Vec3i::new(0, SCALE, 0));
        assert_eq!(f.right, Vec3i::new(0, 0, SCALE));
    }
}

#[test]
fn frame_constant_curve_uses_fallback_tangent() {
    let a = Vec3i::new(2_000_000, 1_000_000, 0);
    let f = evaluate_frame(a, a, a, a, 500_000);
    assert_eq!(f.position, a);
    assert_eq!(f.tangent, Vec3i::new(0, 0, SCALE));
    assert_eq!(f.up, Vec3i::new(0, SCALE, 0));
    assert_eq!(f.right, Vec3i::new(SCALE, 0, 0));
}

#[test]
fn frame_vertical_tangent_uses_fallback_axis() {
    // A straight climb: the tangent is parallel to world up, so the right
    // axis must come from the documented fallback reference axis.
    let p0 = Vec3i::new(0, 0, 0);
    let p1 = Vec3i::new(0, 3_000_000, 0);
    let p2 = Vec3i::new(0, 6_000_000, 0);
    let p3 = Vec3i::new(0, 9_000_000, 0);
    let f = evaluate_frame(p0, p1, p2, p3, 500_000);
    assert_eq!(f.tangent, Vec3i::new(0, -SCALE, 0));
    assert_eq!(f.right, Vec3i::new(SCALE, 0, 0));
}

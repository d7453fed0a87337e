//! Cubic Bezier evaluation and per-sample coordinate frames.
//!
//! A segment is given by four control points.  The position at a parameter
//! is computed by repeated linear interpolation (De Casteljau).  The local
//! frame at a parameter estimates the tangent by a central difference of
//! two nearby curve points (the parameter is clamped to `[0, SCALE]` before
//! differencing), takes world up as the up axis, and derives the right axis
//! as the normalized cross product of up and tangent.  When the tangent is
//! parallel to up that cross product vanishes; the fallback reference axis
//! is world forward `(0, 0, SCALE)`, and if that also fails the right axis
//! defaults to world right `(SCALE, 0, 0)`.

use vstd::prelude::*;

use crate::math::{
    cross, div_scale, iabs, is_zero3, lerp3, normalize, spec_add3, spec_cross, spec_lerp3,
    spec_normalize, spec_sub3, sub3, v3_within, lemma_lerp_constant, lemma_lerp_endpoints,
    Vec3i, V3, MAX_COORD, SCALE,
};

verus! {

/// Half-width of the central difference used for the tangent estimate,
/// in fixed-point parameter units (0.01 of the parameter range).
pub const EPSILON: i64 = 10_000;

/// Largest magnitude a curve point can reach from control points within
/// `MAX_COORD` at parameters within `[-2 * SCALE, 2 * SCALE]`.
pub const MAX_POINT: i64 = 6_250_000_000_000;

/// A local coordinate system at one curve sample: a position and an
/// orthogonal basis, all fixed-point.
#[derive(Clone, Copy, PartialEq, Eq, Structural, Debug)]
pub struct Frame {
    pub position: Vec3i,
    pub right: Vec3i,
    pub up: Vec3i,
    pub tangent: Vec3i,
}

/// The mathematical value of a `Frame`.
pub struct FrameV {
    pub position: V3,
    pub right: V3,
    pub up: V3,
    pub tangent: V3,
}

impl View for Frame {
    type V = FrameV;

    open spec fn view(&self) -> FrameV {
        FrameV {
            position: self.position@,
            right: self.right@,
            up: self.up@,
            tangent: self.tangent@,
        }
    }
}

/// Cubic Bezier position at parameter `t` by repeated linear
/// interpolation: pairs, then pairs of results, then the final pair.
pub open spec fn spec_evaluate_point(p0: V3, p1: V3, p2: V3, p3: V3, t: int) -> V3 {
    let ab = spec_lerp3(p0, p1, t);
    let bc = spec_lerp3(p1, p2, t);
    let cd = spec_lerp3(p2, p3, t);
    let abbc = spec_lerp3(ab, bc, t);
    let bccd = spec_lerp3(bc, cd, t);
    spec_lerp3(abbc, bccd, t)
}

/// A constant curve returns its point at every parameter.
pub proof fn lemma_constant_curve(a: V3, t: int)
    ensures
        spec_evaluate_point(a, a, a, a, t) == a,
{
    lemma_lerp_constant(a.x, t);
    lemma_lerp_constant(a.y, t);
    lemma_lerp_constant(a.z, t);
    assert(spec_lerp3(a, a, t) == a);
}

/// The curve passes through its first control point at parameter `0` and
/// through its last at parameter `SCALE`.
pub proof fn lemma_curve_endpoints(p0: V3, p1: V3, p2: V3, p3: V3)
    ensures
        spec_evaluate_point(p0, p1, p2, p3, 0) == p0,
        spec_evaluate_point(p0, p1, p2, p3, SCALE as int) == p3,
{
    lemma_lerp_endpoints(p0.x, p1.x);
    lemma_lerp_endpoints(p0.y, p1.y);
    lemma_lerp_endpoints(p0.z, p1.z);
    lemma_lerp_endpoints(p1.x, p2.x);
    lemma_lerp_endpoints(p1.y, p2.y);
    lemma_lerp_endpoints(p1.z, p2.z);
    lemma_lerp_endpoints(p2.x, p3.x);
    lemma_lerp_endpoints(p2.y, p3.y);
    lemma_lerp_endpoints(p2.z, p3.z);
    let ab0 = spec_lerp3(p0, p1, 0);
    let bc0 = spec_lerp3(p1, p2, 0);
    assert(ab0 == p0 && bc0 == p1);
    lemma_lerp_endpoints(ab0.x, bc0.x);
    lemma_lerp_endpoints(ab0.y, bc0.y);
    lemma_lerp_endpoints(ab0.z, bc0.z);
    let abbc0 = spec_lerp3(ab0, bc0, 0);
    let bccd0 = spec_lerp3(bc0, spec_lerp3(p2, p3, 0), 0);
    assert(abbc0 == p0);
    lemma_lerp_endpoints(abbc0.x, bccd0.x);
    lemma_lerp_endpoints(abbc0.y, bccd0.y);
    lemma_lerp_endpoints(abbc0.z, bccd0.z);
    let s = SCALE as int;
    let ab1 = spec_lerp3(p0, p1, s);
    let bc1 = spec_lerp3(p1, p2, s);
    let cd1 = spec_lerp3(p2, p3, s);
    assert(ab1 == p1 && bc1 == p2 && cd1 == p3);
    lemma_lerp_endpoints(ab1.x, bc1.x);
    lemma_lerp_endpoints(ab1.y, bc1.y);
    lemma_lerp_endpoints(ab1.z, bc1.z);
    let abbc1 = spec_lerp3(ab1, bc1, s);
    let bccd1 = spec_lerp3(bc1, cd1, s);
    assert(bccd1 == p3);
    lemma_lerp_endpoints(abbc1.x, bccd1.x);
    lemma_lerp_endpoints(abbc1.y, bccd1.y);
    lemma_lerp_endpoints(abbc1.z, bccd1.z);
}

/// All four control points within `MAX_COORD` per component.
pub open spec fn points_within(p0: V3, p1: V3, p2: V3, p3: V3) -> bool {
    v3_within(p0, MAX_COORD as int) && v3_within(p1, MAX_COORD as int) && v3_within(
        p2,
        MAX_COORD as int,
    ) && v3_within(p3, MAX_COORD as int)
}

/// Cubic Bezier position at fixed-point parameter `t` (`0` is the start
/// of the segment, `SCALE` the end; values up to one whole range outside
/// are accepted).
pub fn evaluate_point(p0: Vec3i, p1: Vec3i, p2: Vec3i, p3: Vec3i, t: i64) -> (r: Vec3i)
    requires
        points_within(p0@, p1@, p2@, p3@),
        -2 * SCALE <= t <= 2 * SCALE,
    ensures
        r@ == spec_evaluate_point(p0@, p1@, p2@, p3@, t as int),
        v3_within(r@, MAX_POINT as int),
{
    let ab = lerp3(p0, p1, t);
    let bc = lerp3(p1, p2, t);
    let cd = lerp3(p2, p3, t);
    let abbc = lerp3(ab, bc, t);
    let bccd = lerp3(bc, cd, t);
    lerp3(abbc, bccd, t)
}

/// The central-difference parameters for the tangent estimate at `t`,
/// clamped to the segment.
pub open spec fn spec_t_minus(t: int) -> int {
    if t >= EPSILON {
        t - EPSILON
    } else {
        0
    }
}

pub open spec fn spec_t_plus(t: int) -> int {
    if t + EPSILON <= SCALE {
        t + EPSILON
    } else {
        SCALE as int
    }
}

/// The local frame at parameter `t`: position on the curve, tangent from
/// the central difference, up fixed to world up, right from the cross
/// product, with the fallbacks described at the top of this module.
pub open spec fn spec_frame(p0: V3, p1: V3, p2: V3, p3: V3, t: int) -> FrameV {
    let s = SCALE as int;
    let position = spec_evaluate_point(p0, p1, p2, p3, t);
    let d = spec_sub3(
        spec_evaluate_point(p0, p1, p2, p3, spec_t_minus(t)),
        spec_evaluate_point(p0, p1, p2, p3, spec_t_plus(t)),
    );
    let tangent = if d == (V3 { x: 0, y: 0, z: 0 }) {
        V3 { x: 0, y: 0, z: s }
    } else {
        spec_normalize(d)
    };
    let up = V3 { x: 0, y: s, z: 0 };
    let c = spec_cross(up, tangent);
    let right = if c != (V3 { x: 0, y: 0, z: 0 }) {
        spec_normalize(c)
    } else {
        let c2 = spec_cross(V3 { x: 0, y: 0, z: s }, tangent);
        if c2 != (V3 { x: 0, y: 0, z: 0 }) {
            spec_normalize(c2)
        } else {
            V3 { x: s, y: 0, z: 0 }
        }
    };
    FrameV { position, right, up, tangent }
}

/// Compute the local frame at fixed-point parameter `t`.
pub fn evaluate_frame(p0: Vec3i, p1: Vec3i, p2: Vec3i, p3: Vec3i, t: i64) -> (r: Frame)
    requires
        points_within(p0@, p1@, p2@, p3@),
        0 <= t <= SCALE,
    ensures
        r@ == spec_frame(p0@, p1@, p2@, p3@, t as int),
        v3_within(r@.position, MAX_POINT as int),
        v3_within(r@.right, SCALE as int),
        v3_within(r@.up, SCALE as int),
        v3_within(r@.tangent, SCALE as int),
{
    let position = evaluate_point(p0, p1, p2, p3, t);
    let tm: i64 = if t >= EPSILON {
        t - EPSILON
    } else {
        0
    };
    let tp: i64 = if t + EPSILON <= SCALE {
        t + EPSILON
    } else {
        SCALE
    };
    let d = sub3(
        evaluate_point(p0, p1, p2, p3, tm),
        evaluate_point(p0, p1, p2, p3, tp),
    );
    let tangent = if is_zero3(&d) {
        Vec3i::new(0, 0, SCALE)
    } else {
        normalize(d)
    };
    let up = Vec3i::new(0, SCALE, 0);
    let c = cross(up, tangent);
    let right = if !is_zero3(&c) {
        normalize(c)
    } else {
        let c2 = cross(Vec3i::new(0, 0, SCALE), tangent);
        if !is_zero3(&c2) {
            normalize(c2)
        } else {
            Vec3i::new(SCALE, 0, 0)
        }
    };
    Frame { position, right, up, tangent }
}

/// World position of a profile point under a frame: the frame position
/// plus the basis applied to the local coordinates.
pub open spec fn spec_transform_dir(f: FrameV, l: V3) -> V3 {
    V3 {
        x: div_scale(l.x * f.right.x + l.y * f.up.x + l.z * f.tangent.x),
        y: div_scale(l.x * f.right.y + l.y * f.up.y + l.z * f.tangent.y),
        z: div_scale(l.x * f.right.z + l.y * f.up.z + l.z * f.tangent.z),
    }
}

pub open spec fn spec_transform_point(f: FrameV, l: V3) -> V3 {
    spec_add3(f.position, spec_transform_dir(f, l))
}

/// A frame whose basis components are all within one unit (`SCALE`).
pub open spec fn frame_basis_within(f: FrameV) -> bool {
    v3_within(f.right, SCALE as int) && v3_within(f.up, SCALE as int) && v3_within(
        f.tangent,
        SCALE as int,
    )
}

/// Apply the frame basis to a local direction (no translation).
pub fn transform_dir(f: &Frame, l: Vec3i) -> (r: Vec3i)
    requires
        frame_basis_within(f@),
        v3_within(l@, SCALE as int),
    ensures
        r@ == spec_transform_dir(f@, l@),
        v3_within(r@, 3 * SCALE as int),
{
    let x = basis_comp(l.x, f.right.x, l.y, f.up.x, l.z, f.tangent.x);
    let y = basis_comp(l.x, f.right.y, l.y, f.up.y, l.z, f.tangent.y);
    let z = basis_comp(l.x, f.right.z, l.y, f.up.z, l.z, f.tangent.z);
    Vec3i { x, y, z }
}

/// Transform a local position into world space under the frame.
pub fn transform_point(f: &Frame, l: Vec3i) -> (r: Vec3i)
    requires
        frame_basis_within(f@),
        v3_within(f@.position, MAX_POINT as int),
        v3_within(l@, SCALE as int),
    ensures
        r@ == spec_transform_point(f@, l@),
        v3_within(r@, MAX_POINT as int + 3 * SCALE as int),
{
    let d = transform_dir(f, l);
    Vec3i { x: f.position.x + d.x, y: f.position.y + d.y, z: f.position.z + d.z }
}

/// One basis-application component: `(a * b + c * d + e * g) / SCALE`,
/// truncated toward zero.
fn basis_comp(a: i64, b: i64, c: i64, d: i64, e: i64, g: i64) -> (out: i64)
    requires
        iabs(a as int) <= SCALE as int,
        iabs(b as int) <= SCALE as int,
        iabs(c as int) <= SCALE as int,
        iabs(d as int) <= SCALE as int,
        iabs(e as int) <= SCALE as int,
        iabs(g as int) <= SCALE as int,
    ensures
        out as int == div_scale(a * b + c * d + e * g),
        iabs(out as int) <= 3 * SCALE as int,
{
    proof {
        assert(iabs(a as int * b as int) <= 1_000_000_000_000int
            && iabs(c as int * d as int) <= 1_000_000_000_000int
            && iabs(e as int * g as int) <= 1_000_000_000_000int) by (nonlinear_arith)
            requires
                iabs(a as int) <= 1_000_000int,
                iabs(b as int) <= 1_000_000int,
                iabs(c as int) <= 1_000_000int,
                iabs(d as int) <= 1_000_000int,
                iabs(e as int) <= 1_000_000int,
                iabs(g as int) <= 1_000_000int;
    }
    let num: i64 = a * b + c * d + e * g;
    proof {
        let sc = SCALE as int;
        let ni = num as int;
        if num >= 0 {
            assert(0 <= ni / sc <= 3_000_000int) by (nonlinear_arith)
                requires
                    0 <= ni <= 3_000_000_000_000int,
                    sc == 1_000_000int;
        } else {
            assert(0 <= (-ni) / sc <= 3_000_000int) by (nonlinear_arith)
                requires
                    0 < -ni <= 3_000_000_000_000int,
                    sc == 1_000_000int;
        }
    }
    if num >= 0 {
        num / SCALE
    } else {
        -((-num) / SCALE)
    }
}

} // verus!

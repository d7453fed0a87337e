//! Fixed-point scalar and vector arithmetic.
//!
//! One world unit is `SCALE` sub-units; every coordinate, normal component
//! and texture coordinate in the crate is an `i64` count of sub-units.
//! Division is always performed on a non-negative dividend (the sign is
//! split off first), so executable truncating division and mathematical
//! Euclidean division agree everywhere.

use vstd::prelude::*;

verus! {

/// Sub-units per world unit of the fixed-point representation.
pub const SCALE: i64 = 1_000_000;

/// Largest magnitude allowed for a control-point coordinate.
pub const MAX_COORD: i64 = 50_000_000_000;

/// A point or direction in 3-space, fixed-point coordinates.
#[derive(Clone, Copy, PartialEq, Eq, Structural, Debug)]
pub struct Vec3i {
    pub x: i64,
    pub y: i64,
    pub z: i64,
}

/// A texture coordinate pair, fixed-point.
#[derive(Clone, Copy, PartialEq, Eq, Structural, Debug)]
pub struct Vec2i {
    pub x: i64,
    pub y: i64,
}

/// The mathematical value of a `Vec3i`: unbounded integer components.
pub struct V3 {
    pub x: int,
    pub y: int,
    pub z: int,
}

/// The mathematical value of a `Vec2i`.
pub struct V2 {
    pub x: int,
    pub y: int,
}

impl View for Vec3i {
    type V = V3;

    open spec fn view(&self) -> V3 {
        V3 { x: self.x as int, y: self.y as int, z: self.z as int }
    }
}

impl View for Vec2i {
    type V = V2;

    open spec fn view(&self) -> V2 {
        V2 { x: self.x as int, y: self.y as int }
    }
}

impl Vec3i {
    pub fn new(x: i64, y: i64, z: i64) -> (r: Vec3i)
        ensures
            r == (Vec3i { x, y, z }),
    {
        Vec3i { x, y, z }
    }
}

impl Vec2i {
    pub fn new(x: i64, y: i64) -> (r: Vec2i)
        ensures
            r == (Vec2i { x, y }),
    {
        Vec2i { x, y }
    }
}

/// Absolute value of a mathematical integer.
pub open spec fn iabs(x: int) -> int {
    if x >= 0 {
        x
    } else {
        -x
    }
}

/// All three components within `m` in magnitude.
pub open spec fn v3_within(v: V3, m: int) -> bool {
    iabs(v.x) <= m && iabs(v.y) <= m && iabs(v.z) <= m
}

/// Truncating (round-toward-zero) division by `SCALE`, as the executable
/// code performs it.
pub open spec fn div_scale(num: int) -> int {
    if num >= 0 {
        num / (SCALE as int)
    } else {
        -((-num) / (SCALE as int))
    }
}

/// Linear interpolation from `a` to `b` by the fixed-point parameter `t`
/// (`t == SCALE` is one whole step).
pub open spec fn spec_lerp(a: int, b: int, t: int) -> int {
    a + div_scale((b - a) * t)
}

/// `spec_lerp` of equal endpoints is that endpoint, for every `t`.
pub proof fn lemma_lerp_constant(a: int, t: int)
    ensures
        spec_lerp(a, a, t) == a,
{
    assert((a - a) * t == 0) by (nonlinear_arith);
}

/// `spec_lerp` hits its endpoints exactly at `t == 0` and `t == SCALE`.
pub proof fn lemma_lerp_endpoints(a: int, b: int)
    ensures
        spec_lerp(a, b, 0) == a,
        spec_lerp(a, b, SCALE as int) == b,
{
    assert((b - a) * 0 == 0) by (nonlinear_arith);
    let s = SCALE as int;
    if b >= a {
        assert((b - a) * s >= 0) by (nonlinear_arith)
            requires
                b >= a,
                s > 0;
        assert((b - a) * s / s == b - a) by (nonlinear_arith)
            requires
                s > 0;
    } else {
        assert((b - a) * s < 0) by (nonlinear_arith)
            requires
                b < a,
                s > 0;
        assert(-((b - a) * s) == (a - b) * s) by (nonlinear_arith);
        assert((a - b) * s / s == a - b) by (nonlinear_arith)
            requires
                s > 0;
    }
}

/// Magnitude bound on one interpolation step, for `|t| <= 2 * SCALE`.
pub proof fn lemma_lerp_bound(a: int, b: int, t: int)
    requires
        -2 * SCALE <= t <= 2 * SCALE,
    ensures
        iabs(spec_lerp(a, b, t)) <= 3 * iabs(a) + 2 * iabs(b),
{
    let s = SCALE as int;
    let num = (b - a) * t;
    let m = iabs(a) + iabs(b);
    assert(-(2 * m * s) <= num <= 2 * m * s) by (nonlinear_arith)
        requires
            -m <= b - a <= m,
            -2 * s <= t <= 2 * s,
            0 <= m,
            num == (b - a) * t;
    if num >= 0 {
        assert(0 <= num / s <= 2 * m) by (nonlinear_arith)
            requires
                0 <= num <= 2 * m * s,
                s == SCALE as int;
    } else {
        assert(0 <= (-num) / s <= 2 * m) by (nonlinear_arith)
            requires
                0 < -num <= 2 * m * s,
                s == SCALE as int;
    }
}

/// Linear interpolation from `a` to `b` by fixed-point parameter `t`.
pub fn lerp(a: i64, b: i64, t: i64) -> (r: i64)
    requires
        iabs(a as int) <= 1_250_000_000_000,
        iabs(b as int) <= 1_250_000_000_000,
        -2 * SCALE <= t <= 2 * SCALE,
    ensures
        r == spec_lerp(a as int, b as int, t as int),
        iabs(r as int) <= 3 * iabs(a as int) + 2 * iabs(b as int),
{
    proof {
        lemma_lerp_bound(a as int, b as int, t as int);
    }
    let num: i64 = (b - a) * t;
    if num >= 0 {
        a + num / SCALE
    } else {
        a - (-num) / SCALE
    }
}

/// Componentwise `spec_lerp`.
pub open spec fn spec_lerp3(a: V3, b: V3, t: int) -> V3 {
    V3 { x: spec_lerp(a.x, b.x, t), y: spec_lerp(a.y, b.y, t), z: spec_lerp(a.z, b.z, t) }
}

/// Componentwise linear interpolation of two points.
pub fn lerp3(a: Vec3i, b: Vec3i, t: i64) -> (r: Vec3i)
    requires
        v3_within(a@, 1_250_000_000_000),
        v3_within(b@, 1_250_000_000_000),
        -2 * SCALE <= t <= 2 * SCALE,
    ensures
        r@ == spec_lerp3(a@, b@, t as int),
        iabs(r@.x) <= 3 * iabs(a@.x) + 2 * iabs(b@.x),
        iabs(r@.y) <= 3 * iabs(a@.y) + 2 * iabs(b@.y),
        iabs(r@.z) <= 3 * iabs(a@.z) + 2 * iabs(b@.z),
{
    Vec3i { x: lerp(a.x, b.x, t), y: lerp(a.y, b.y, t), z: lerp(a.z, b.z, t) }
}

/// Componentwise sum.
pub open spec fn spec_add3(a: V3, b: V3) -> V3 {
    V3 { x: a.x + b.x, y: a.y + b.y, z: a.z + b.z }
}

/// Componentwise difference.
pub open spec fn spec_sub3(a: V3, b: V3) -> V3 {
    V3 { x: a.x - b.x, y: a.y - b.y, z: a.z - b.z }
}

/// Componentwise difference of two points.
pub fn sub3(a: Vec3i, b: Vec3i) -> (r: Vec3i)
    requires
        v3_within(a@, 4_000_000_000_000_000_000),
        v3_within(b@, 4_000_000_000_000_000_000),
    ensures
        r@ == spec_sub3(a@, b@),
{
    Vec3i { x: a.x - b.x, y: a.y - b.y, z: a.z - b.z }
}

/// Whether all three components are zero.
pub fn is_zero3(v: &Vec3i) -> (r: bool)
    ensures
        r == (v@.x == 0 && v@.y == 0 && v@.z == 0),
{
    v.x == 0 && v.y == 0 && v.z == 0
}

/// `n` is the integer square root of `s`: the largest integer whose square
/// does not exceed `s`.
pub open spec fn is_isqrt(n: int, s: int) -> bool {
    0 <= n && n * n <= s && s < (n + 1) * (n + 1)
}

/// The integer square root of `s`.
pub open spec fn spec_isqrt(s: int) -> int {
    choose|n: int| is_isqrt(n, s)
}

/// The integer square root is unique.
pub proof fn lemma_isqrt_unique(n1: int, n2: int, s: int)
    requires
        is_isqrt(n1, s),
        is_isqrt(n2, s),
    ensures
        n1 == n2,
{
    assert(n1 == n2) by (nonlinear_arith)
        requires
            0 <= n1 && n1 * n1 <= s && s < (n1 + 1) * (n1 + 1),
            0 <= n2 && n2 * n2 <= s && s < (n2 + 1) * (n2 + 1);
}

/// Any value satisfying `is_isqrt` is `spec_isqrt`.
pub proof fn lemma_isqrt_of(n: int, s: int)
    requires
        is_isqrt(n, s),
    ensures
        spec_isqrt(s) == n,
{
    assert(is_isqrt(spec_isqrt(s), s)) by {
        assert(exists|m: int| is_isqrt(m, s));
    }
    lemma_isqrt_unique(spec_isqrt(s), n, s);
}

/// Integer square root by bisection.
pub fn isqrt(s: u128) -> (r: u64)
    requires
        s < 0x4000_0000_0000_0000_0000_0000_0000_0000,
    ensures
        is_isqrt(r as int, s as int),
        r as int == spec_isqrt(s as int),
{
    let mut lo: u64 = 0;
    let mut hi: u64 = 0x8000_0000_0000_0000;
    proof {
        assert((hi as int) * (hi as int) == 0x4000_0000_0000_0000_0000_0000_0000_0000int)
            by (nonlinear_arith)
            requires
                hi == 0x8000_0000_0000_0000u64;
    }
    while hi - lo > 1
        invariant
            lo < hi,
            hi <= 0x8000_0000_0000_0000,
            (lo as int) * (lo as int) <= s as int,
            (s as int) < (hi as int) * (hi as int),
        decreases hi - lo,
    {
        let mid: u64 = lo + (hi - lo) / 2;
        proof {
            assert((mid as int) * (mid as int) < 0x1_0000_0000_0000_0000_0000_0000_0000_0000int)
                by (nonlinear_arith)
                requires
                    mid < 0x8000_0000_0000_0001u64;
        }
        let sq: u128 = (mid as u128) * (mid as u128);
        if sq <= s {
            lo = mid;
        } else {
            hi = mid;
        }
    }
    proof {
        lemma_isqrt_of(lo as int, s as int);
    }
    lo
}

/// Fixed-point quotient `c * SCALE / n`, truncated toward zero.
pub open spec fn scale_div(c: int, n: int) -> int {
    if c >= 0 {
        (c * SCALE) / n
    } else {
        -(((-c) * SCALE) / n)
    }
}

/// Squared Euclidean length.
pub open spec fn spec_norm2(v: V3) -> int {
    v.x * v.x + v.y * v.y + v.z * v.z
}

/// The vector rescaled to unit length (`SCALE`) in fixed point: each
/// component becomes `c * SCALE / n` where `n` is the integer square root
/// of the squared length.
pub open spec fn spec_normalize(v: V3) -> V3 {
    let n = spec_isqrt(spec_norm2(v));
    V3 { x: scale_div(v.x, n), y: scale_div(v.y, n), z: scale_div(v.z, n) }
}

/// Absolute value as `u64`.
fn abs64(x: i64) -> (r: u64)
    requires
        x != i64::MIN,
    ensures
        r as int == iabs(x as int),
{
    if x >= 0 {
        x as u64
    } else {
        (-x) as u64
    }
}

/// The component magnitudes never exceed the integer square root of the
/// squared length.
proof fn lemma_comp_le_isqrt(v: V3, n: int)
    requires
        is_isqrt(n, spec_norm2(v)),
    ensures
        iabs(v.x) <= n,
        iabs(v.y) <= n,
        iabs(v.z) <= n,
{
    assert(iabs(v.x) <= n && iabs(v.y) <= n && iabs(v.z) <= n) by (nonlinear_arith)
        requires
            0 <= n,
            n * n <= spec_norm2(v) < (n + 1) * (n + 1),
            spec_norm2(v) == v.x * v.x + v.y * v.y + v.z * v.z;
}

/// Rescale a nonzero vector to unit length in fixed point.
pub fn normalize(v: Vec3i) -> (r: Vec3i)
    requires
        v3_within(v@, 13_000_000_000_000),
        !(v@.x == 0 && v@.y == 0 && v@.z == 0),
    ensures
        r@ == spec_normalize(v@),
        v3_within(r@, SCALE as int),
{
    let ax = abs64(v.x);
    let ay = abs64(v.y);
    let az = abs64(v.z);
    proof {
        assert((ax as int) * (ax as int) == v@.x * v@.x
            && (ay as int) * (ay as int) == v@.y * v@.y
            && (az as int) * (az as int) == v@.z * v@.z) by (nonlinear_arith)
            requires
                ax as int == iabs(v@.x),
                ay as int == iabs(v@.y),
                az as int == iabs(v@.z);
        assert((ax as int) * (ax as int) <= 169_000_000_000_000_000_000_000_000int
            && (ay as int) * (ay as int) <= 169_000_000_000_000_000_000_000_000int
            && (az as int) * (az as int) <= 169_000_000_000_000_000_000_000_000int)
            by (nonlinear_arith)
            requires
                0 <= ax <= 13_000_000_000_000u64,
                0 <= ay <= 13_000_000_000_000u64,
                0 <= az <= 13_000_000_000_000u64;
    }
    let s2: u128 = (ax as u128) * (ax as u128) + (ay as u128) * (ay as u128) + (az as u128)
        * (az as u128);
    let n: u64 = isqrt(s2);
    proof {
        assert(s2 as int == spec_norm2(v@));
        if n == 0 {
            assert(is_isqrt(0, s2 as int));
            assert((0int + 1) * (0int + 1) == 1) by (nonlinear_arith);
            assert(s2 as int == 0);
            assert(v@.x * v@.x >= 1 || v@.y * v@.y >= 1 || v@.z * v@.z >= 1) by (nonlinear_arith)
                requires
                    !(v@.x == 0 && v@.y == 0 && v@.z == 0);
            assert(v@.x * v@.x >= 0 && v@.y * v@.y >= 0 && v@.z * v@.z >= 0) by (nonlinear_arith);
            assert(false);
        }
        lemma_comp_le_isqrt(v@, n as int);
    }
    let rx = scale_div_exec(v.x, ax, n);
    let ry = scale_div_exec(v.y, ay, n);
    let rz = scale_div_exec(v.z, az, n);
    Vec3i { x: rx, y: ry, z: rz }
}

/// One normalized component: `sign(c) * (|c| * SCALE / n)`.
fn scale_div_exec(c: i64, ac: u64, n: u64) -> (r: i64)
    requires
        ac as int == iabs(c as int),
        1 <= n,
        ac <= n,
    ensures
        r as int == scale_div(c as int, n as int),
        iabs(r as int) <= SCALE as int,
{
    let q128: u128 = (ac as u128) * (SCALE as u128) / (n as u128);
    proof {
        assert((ac as int) * (SCALE as int) / (n as int) <= SCALE as int) by (nonlinear_arith)
            requires
                1 <= n as int,
                0 <= ac as int <= n as int;
        assert((ac as int) * (SCALE as int) / (n as int) >= 0) by (nonlinear_arith)
            requires
                1 <= n as int,
                0 <= ac as int;
        assert((ac as u128) * (SCALE as u128) == (ac as int) * (SCALE as int))
            by (nonlinear_arith)
            requires
                0 <= ac,
                SCALE == 1_000_000i64;
    }
    let q: i64 = q128 as i64;
    if c >= 0 {
        q
    } else {
        -q
    }
}

/// Fixed-point cross product: each component of the usual determinant
/// formula, divided by `SCALE`.
pub open spec fn spec_cross(a: V3, b: V3) -> V3 {
    V3 {
        x: div_scale(a.y * b.z - a.z * b.y),
        y: div_scale(a.z * b.x - a.x * b.z),
        z: div_scale(a.x * b.y - a.y * b.x),
    }
}

/// Fixed-point cross product of two unit-scale vectors.
pub fn cross(a: Vec3i, b: Vec3i) -> (r: Vec3i)
    requires
        v3_within(a@, 2 * SCALE as int),
        v3_within(b@, 2 * SCALE as int),
    ensures
        r@ == spec_cross(a@, b@),
        v3_within(r@, 8 * SCALE as int),
{
    let rx = cross_comp(a.y, b.z, a.z, b.y);
    let ry = cross_comp(a.z, b.x, a.x, b.z);
    let rz = cross_comp(a.x, b.y, a.y, b.x);
    Vec3i { x: rx, y: ry, z: rz }
}

/// One cross-product component: `(p * q - r * s) / SCALE`, truncated
/// toward zero.
fn cross_comp(p: i64, q: i64, r: i64, s: i64) -> (out: i64)
    requires
        iabs(p as int) <= 2 * SCALE as int,
        iabs(q as int) <= 2 * SCALE as int,
        iabs(r as int) <= 2 * SCALE as int,
        iabs(s as int) <= 2 * SCALE as int,
    ensures
        out as int == div_scale(p * q - r * s),
        iabs(out as int) <= 8 * SCALE as int,
{
    proof {
        assert(iabs(p as int * q as int) <= 4_000_000_000_000int
            && iabs(r as int * s as int) <= 4_000_000_000_000int) by (nonlinear_arith)
            requires
                iabs(p as int) <= 2_000_000int,
                iabs(q as int) <= 2_000_000int,
                iabs(r as int) <= 2_000_000int,
                iabs(s as int) <= 2_000_000int;
    }
    let num: i64 = p * q - r * s;
    proof {
        let sc = SCALE as int;
        let ni = num as int;
        if num >= 0 {
            assert(0 <= ni / sc <= 8_000_000int) by (nonlinear_arith)
                requires
                    0 <= ni <= 8_000_000_000_000int,
                    sc == 1_000_000int;
        } else {
            assert(0 <= (-ni) / sc <= 8_000_000int) by (nonlinear_arith)
                requires
                    0 < -ni <= 8_000_000_000_000int,
                    sc == 1_000_000int;
        }
    }
    if num >= 0 {
        num / SCALE
    } else {
        -((-num) / SCALE)
    }
}

} // verus!

//! The extruder/stitcher: sample the curve, transform the cross-section
//! into world space at every sample, and stitch consecutive rings with the
//! triangulation template.
//!
//! `build` is a pure function of the four control points and the sample
//! count; its contract pins every output vertex and index exactly, so two
//! calls with equal inputs produce identical buffers.

use vstd::prelude::*;

use crate::curve::{
    evaluate_frame, frame_basis_within, points_within, spec_frame, spec_transform_dir,
    spec_transform_point, transform_dir, transform_point, FrameV,
};
use crate::error::KernelError;
use crate::math::{v3_within, Vec2i, Vec3i, V2, V3, SCALE};
use crate::profile::{
    lemma_profile_ok, lemma_template_in_range, profile, profile_vertex_ok, spec_profile,
    spec_template, template, ProfileVertex, TRIANGLES_PER_SEGMENT, VERTEX_COUNT,
};
use vstd::arithmetic::div_mod::lemma_fundamental_div_mod_converse;

verus! {

/// Largest accepted sample count, so that every intermediate index and
/// fixed-point product fits its machine integer.
pub const MAX_DETAIL: usize = 1_000_000;

/// One generated mesh vertex: world-space position and normal, and a
/// `(profile_u, t)` texture coordinate.
#[derive(Clone, Copy, PartialEq, Eq, Structural, Debug)]
pub struct Vertex {
    pub point: Vec3i,
    pub normal: Vec3i,
    pub uv: Vec2i,
}

/// The mathematical value of a `Vertex`.
pub struct VertexV {
    pub point: V3,
    pub normal: V3,
    pub uv: V2,
}

impl View for Vertex {
    type V = VertexV;

    open spec fn view(&self) -> VertexV {
        VertexV { point: self.point@, normal: self.normal@, uv: self.uv@ }
    }
}

impl Vertex {
    pub fn new(point: Vec3i, normal: Vec3i, uv: Vec2i) -> (r: Vertex)
        ensures
            r == (Vertex { point, normal, uv }),
    {
        Vertex { point, normal, uv }
    }
}

/// The fixed-point curve parameter of sample `i` out of `detail`: samples
/// span `[0, SCALE]` inclusive, so sample `detail - 1` is exactly `SCALE`.
pub open spec fn spec_sample_t(detail: int, i: int) -> int {
    i * (SCALE as int) / (detail - 1)
}

/// The generated vertex of ring `k`, profile entry `j`.
pub open spec fn spec_ring_vertex(p0: V3, p1: V3, p2: V3, p3: V3, detail: int, k: int, j: int) -> VertexV {
    let t = spec_sample_t(detail, k);
    let f = spec_frame(p0, p1, p2, p3, t);
    let pv = spec_profile()[j];
    VertexV {
        point: spec_transform_point(f, pv.position@),
        normal: spec_transform_dir(f, pv.normal@),
        uv: V2 { x: pv.u as int, y: t },
    }
}

/// What a successful `build` returns: `detail` rings of `VERTEX_COUNT`
/// vertices in sample order, and for each of the `detail - 1` ring pairs
/// the triangulation template offset by the pair's first ring, every index
/// in range.
pub open spec fn build_ok(
    p0: V3,
    p1: V3,
    p2: V3,
    p3: V3,
    detail: int,
    verts: Seq<Vertex>,
    idx: Seq<u32>,
) -> bool {
    &&& verts.len() == detail * (VERTEX_COUNT as int)
    &&& idx.len() == (detail - 1) * (3 * TRIANGLES_PER_SEGMENT as int)
    &&& forall|i: int|
        0 <= i < verts.len() ==> (#[trigger] verts[i])@ == spec_ring_vertex(
            p0,
            p1,
            p2,
            p3,
            detail,
            i / (VERTEX_COUNT as int),
            i % (VERTEX_COUNT as int),
        )
    &&& forall|i: int|
        0 <= i < idx.len() ==> (#[trigger] idx[i]) as int == spec_template()[i % (
        3 * TRIANGLES_PER_SEGMENT as int)] + (VERTEX_COUNT as int) * (i / (3
            * TRIANGLES_PER_SEGMENT as int))
    &&& forall|i: int| 0 <= i < idx.len() ==> ((#[trigger] idx[i]) as int) < verts.len()
}

/// `build` is deterministic: any two outputs that satisfy its contract for
/// the same inputs are identical, buffer for buffer.
pub proof fn lemma_build_deterministic(
    p0: V3,
    p1: V3,
    p2: V3,
    p3: V3,
    detail: int,
    v1: Seq<Vertex>,
    i1: Seq<u32>,
    v2: Seq<Vertex>,
    i2: Seq<u32>,
)
    requires
        build_ok(p0, p1, p2, p3, detail, v1, i1),
        build_ok(p0, p1, p2, p3, detail, v2, i2),
    ensures
        v1 == v2,
        i1 == i2,
{
    assert forall|i: int| 0 <= i < v1.len() implies v1[i] == v2[i] by {
        assert(v1[i]@ == v2[i]@);
    }
    assert(v1 =~= v2);
    assert forall|i: int| 0 <= i < i1.len() implies i1[i] == i2[i] by {
        assert(i1[i] as int == i2[i] as int);
    }
    assert(i1 =~= i2);
}

/// The fixed-point parameter of sample `i`.
fn sample_t(detail: usize, i: usize) -> (r: i64)
    requires
        2 <= detail <= MAX_DETAIL,
        i < detail,
    ensures
        r as int == spec_sample_t(detail as int, i as int),
        0 <= r <= SCALE,
{
    let num: u64 = (i as u64) * (SCALE as u64);
    proof {
        assert((i as int) * (SCALE as int) <= 1_000_000_000_000int) by (nonlinear_arith)
            requires
                0 <= i as int <= 1_000_000int,
                SCALE == 1_000_000i64;
        assert((i as int) * (SCALE as int) / (detail as int - 1) <= SCALE as int)
            by (nonlinear_arith)
            requires
                0 <= i as int <= detail as int - 1,
                1 <= detail as int - 1,
                SCALE == 1_000_000i64;
        assert((i as int) * (SCALE as int) / (detail as int - 1) >= 0) by (nonlinear_arith)
            requires
                0 <= i as int,
                1 <= detail as int - 1,
                SCALE == 1_000_000i64;
    }
    (num / ((detail - 1) as u64)) as i64
}

/// Extrude the cross-section along the spline given by four control points:
/// `detail` samples become `detail` rings of vertices, and each adjacent
/// ring pair is stitched with the triangulation template.  A sample count
/// below two leaves the parameter step undefined and is rejected.
pub fn build(p0: Vec3i, p1: Vec3i, p2: Vec3i, p3: Vec3i, detail: usize) -> (r: Result<
    (Vec<Vertex>, Vec<u32>),
    KernelError,
>)
    requires
        points_within(p0@, p1@, p2@, p3@),
        detail <= MAX_DETAIL,
    ensures
        r is Ok <==> detail >= 2,
        r is Err ==> r->Err_0 == KernelError::InvalidDetail,
        r is Ok ==> build_ok(p0@, p1@, p2@, p3@, detail as int, r->Ok_0.0@, r->Ok_0.1@),
{
    if detail < 2 {
        return Err(KernelError::InvalidDetail);
    }
    let prof = profile();
    proof {
        lemma_profile_ok();
    }
    let mut verts: Vec<Vertex> = Vec::new();
    let mut k: usize = 0;
    while k < detail
        invariant
            2 <= detail <= MAX_DETAIL,
            points_within(p0@, p1@, p2@, p3@),
            prof@ == spec_profile(),
            prof@.len() == VERTEX_COUNT,
            forall|j: int| 0 <= j < 16 ==> profile_vertex_ok(#[trigger] spec_profile()[j]),
            k <= detail,
            verts@.len() == k * 16,
            forall|i: int|
                0 <= i < verts@.len() ==> (#[trigger] verts@[i])@ == spec_ring_vertex(
                    p0@,
                    p1@,
                    p2@,
                    p3@,
                    detail as int,
                    i / 16,
                    i % 16,
                ),
        decreases detail - k,
    {
        let t = sample_t(detail, k);
        let f = evaluate_frame(p0, p1, p2, p3, t);
        let mut j: usize = 0;
        while j < 16
            invariant
                2 <= detail <= MAX_DETAIL,
                points_within(p0@, p1@, p2@, p3@),
                prof@ == spec_profile(),
                prof@.len() == VERTEX_COUNT,
                forall|jj: int| 0 <= jj < 16 ==> profile_vertex_ok(#[trigger] spec_profile()[jj]),
                k < detail,
                j <= 16,
                verts@.len() == k * 16 + j,
                t as int == spec_sample_t(detail as int, k as int),
                f@ == spec_frame(p0@, p1@, p2@, p3@, t as int),
                frame_basis_within(f@),
                v3_within(f@.position, 6_250_000_000_000int),
                forall|i: int|
                    0 <= i < verts@.len() ==> (#[trigger] verts@[i])@ == spec_ring_vertex(
                        p0@,
                        p1@,
                        p2@,
                        p3@,
                        detail as int,
                        i / 16,
                        i % 16,
                    ),
            decreases 16 - j,
        {
            let pvj = prof[j];
            let point = transform_point(&f, pvj.position);
            let normal = transform_dir(&f, pvj.normal);
            let vert = Vertex::new(point, normal, Vec2i::new(pvj.u, t));
            proof {
                let i = (k * 16 + j) as int;
                lemma_fundamental_div_mod_converse(i, 16, k as int, j as int);
                assert(vert@ == spec_ring_vertex(
                    p0@,
                    p1@,
                    p2@,
                    p3@,
                    detail as int,
                    i / 16,
                    i % 16,
                ));
            }
            verts.push(vert);
            j += 1;
        }
        k += 1;
    }
    let tmpl = template();
    proof {
        lemma_template_in_range();
    }
    let mut idx: Vec<u32> = Vec::new();
    let mut seg: usize = 0;
    while seg < detail - 1
        invariant
            2 <= detail <= MAX_DETAIL,
            tmpl@ == spec_template(),
            tmpl@.len() == 51,
            forall|m: int| 0 <= m < 51 ==> #[trigger] spec_template()[m] < 32,
            seg <= detail - 1,
            idx@.len() == seg * 51,
            forall|i: int|
                0 <= i < idx@.len() ==> (#[trigger] idx@[i]) as int == spec_template()[i % 51] + 16
                    * (i / 51),
        decreases detail - 1 - seg,
    {
        let base: u32 = (seg as u32) * 16;
        let mut m: usize = 0;
        while m < 51
            invariant
                2 <= detail <= MAX_DETAIL,
                tmpl@ == spec_template(),
                tmpl@.len() == 51,
                forall|mm: int| 0 <= mm < 51 ==> #[trigger] spec_template()[mm] < 32,
                seg < detail,
                base == seg * 16,
                m <= 51,
                idx@.len() == seg * 51 + m,
                forall|i: int|
                    0 <= i < idx@.len() ==> (#[trigger] idx@[i]) as int == spec_template()[i % 51]
                        + 16 * (i / 51),
            decreases 51 - m,
        {
            let val: u32 = tmpl[m] + base;
            proof {
                let i = (seg * 51 + m) as int;
                lemma_fundamental_div_mod_converse(i, 51, seg as int, m as int);
                assert(val as int == spec_template()[i % 51] + 16 * (i / 51));
            }
            idx.push(val);
            m += 1;
        }
        seg += 1;
    }
    proof {
        assert forall|i: int| 0 <= i < idx@.len() implies ((#[trigger] idx@[i]) as int)
            < verts@.len() by {
            assert(idx@[i] as int == spec_template()[i % 51] + 16 * (i / 51));
            assert(spec_template()[i % 51] < 32);
            assert(i / 51 <= detail - 2) by {
                assert(i < (detail - 1) * 51);
                lemma_fundamental_div_mod_converse(
                    (detail - 1) * 51,
                    51,
                    detail as int - 1,
                    0,
                );
                assert(i / 51 < detail - 1) by {
                    vstd::arithmetic::div_mod::lemma_div_is_ordered(i, (detail - 1) * 51 - 1, 51);
                }
            };
        }
    }
    Ok((verts, idx))
}

/// The world-space positions of a vertex buffer, in order.
pub fn positions_of(verts: &Vec<Vertex>) -> (r: Vec<Vec3i>)
    ensures
        r@.len() == verts@.len(),
        forall|i: int| 0 <= i < r@.len() ==> #[trigger] r@[i] == verts@[i].point,
{
    let mut r: Vec<Vec3i> = Vec::new();
    let mut i: usize = 0;
    while i < verts.len()
        invariant
            i <= verts@.len(),
            r@.len() == i,
            forall|j: int| 0 <= j < i ==> #[trigger] r@[j] == verts@[j].point,
        decreases verts@.len() - i,
    {
        r.push(verts[i].point);
        i += 1;
    }
    r
}

/// The world-space normals of a vertex buffer, in order.
pub fn normals_of(verts: &Vec<Vertex>) -> (r: Vec<Vec3i>)
    ensures
        r@.len() == verts@.len(),
        forall|i: int| 0 <= i < r@.len() ==> #[trigger] r@[i] == verts@[i].normal,
{
    let mut r: Vec<Vec3i> = Vec::new();
    let mut i: usize = 0;
    while i < verts.len()
        invariant
            i <= verts@.len(),
            r@.len() == i,
            forall|j: int| 0 <= j < i ==> #[trigger] r@[j] == verts@[j].normal,
        decreases verts@.len() - i,
    {
        r.push(verts[i].normal);
        i += 1;
    }
    r
}

/// The texture coordinates of a vertex buffer, in order.
pub fn uvs_of(verts: &Vec<Vertex>) -> (r: Vec<Vec2i>)
    ensures
        r@.len() == verts@.len(),
        forall|i: int| 0 <= i < r@.len() ==> #[trigger] r@[i] == verts@[i].uv,
{
    let mut r: Vec<Vec2i> = Vec::new();
    let mut i: usize = 0;
    while i < verts.len()
        invariant
            i <= verts@.len(),
            r@.len() == i,
            forall|j: int| 0 <= j < i ==> #[trigger] r@[j] == verts@[j].uv,
        decreases verts@.len() - i,
    {
        r.push(verts[i].uv);
        i += 1;
    }
    r
}

} // verus!

//! The road cross-section: a fixed polygon of profile vertices and the
//! triangulation template that stitches one ring of it to the next.
//!
//! Vertices are duplicated at sharp edges (same local position, different
//! normal) so each face gets a flat per-face normal and its own texture-U.
//! The template lists index triples over two consecutive rings: values in
//! `[0, VERTEX_COUNT)` address the current ring, values in
//! `[VERTEX_COUNT, 2 * VERTEX_COUNT)` the next one.

use vstd::prelude::*;

use crate::math::{Vec3i, SCALE};

verus! {

/// Vertices in one cross-section ring.
pub const VERTEX_COUNT: usize = 16;

/// Triangles connecting one ring to the next.
pub const TRIANGLES_PER_SEGMENT: usize = 17;

/// Fixed-point value of `1 / sqrt(2)`, used by the 45-degree edge normals.
pub const HALF_SQRT2: i64 = 707_107;

/// One authored vertex of the cross-section: a position in the profile
/// plane (`z` is zero before the frame transform), an outward normal, and
/// the texture-U coordinate, all fixed-point.
#[derive(Clone, Copy, PartialEq, Eq, Structural, Debug)]
pub struct ProfileVertex {
    pub position: Vec3i,
    pub normal: Vec3i,
    pub u: i64,
}

/// The cross-section polygon: an eight-cornered road outline, authored as
/// sixteen entries with duplicated corners.
pub open spec fn spec_profile() -> Seq<ProfileVertex> {
    seq![
        (ProfileVertex {
            position: Vec3i { x: -500_000i64, y: 300_000, z: 0 },
            normal: Vec3i { x: -1_000_000i64, y: 0, z: 0 },
            u: 0,
        }),
        (ProfileVertex {
            position: Vec3i { x: -500_000i64, y: 300_000, z: 0 },
            normal: Vec3i { x: 0, y: SCALE, z: 0 },
            u: 0,
        }),
        (ProfileVertex {
            position: Vec3i { x: -300_000i64, y: 300_000, z: 0 },
            normal: Vec3i { x: 0, y: SCALE, z: 0 },
            u: 50_000,
        }),
        (ProfileVertex {
            position: Vec3i { x: -300_000i64, y: 300_000, z: 0 },
            normal: Vec3i { x: HALF_SQRT2, y: HALF_SQRT2, z: 0 },
            u: 50_000,
        }),
        (ProfileVertex {
            position: Vec3i { x: -200_000i64, y: 200_000, z: 0 },
            normal: Vec3i { x: HALF_SQRT2, y: HALF_SQRT2, z: 0 },
            u: 100_000,
        }),
        (ProfileVertex {
            position: Vec3i { x: -200_000i64, y: 200_000, z: 0 },
            normal: Vec3i { x: 0, y: SCALE, z: 0 },
            u: 100_000,
        }),
        (ProfileVertex {
            position: Vec3i { x: 200_000, y: 200_000, z: 0 },
            normal: Vec3i { x: 0, y: SCALE, z: 0 },
            u: 900_000,
        }),
        (ProfileVertex {
            position: Vec3i { x: 200_000, y: 200_000, z: 0 },
            normal: Vec3i { x: -707_107i64, y: HALF_SQRT2, z: 0 },
            u: 900_000,
        }),
        (ProfileVertex {
            position: Vec3i { x: 300_000, y: 300_000, z: 0 },
            normal: Vec3i { x: -707_107i64, y: HALF_SQRT2, z: 0 },
            u: 950_000,
        }),
        (ProfileVertex {
            position: Vec3i { x: 300_000, y: 300_000, z: 0 },
            normal: Vec3i { x: 0, y: SCALE, z: 0 },
            u: 950_000,
        }),
        (ProfileVertex {
            position: Vec3i { x: 500_000, y: 300_000, z: 0 },
            normal: Vec3i { x: 0, y: SCALE, z: 0 },
            u: SCALE,
        }),
        (ProfileVertex {
            position: Vec3i { x: 500_000, y: 300_000, z: 0 },
            normal: Vec3i { x: SCALE, y: 0, z: 0 },
            u: SCALE,
        }),
        (ProfileVertex {
            position: Vec3i { x: 500_000, y: 0, z: 0 },
            normal: Vec3i { x: SCALE, y: 0, z: 0 },
            u: SCALE,
        }),
        (ProfileVertex {
            position: Vec3i { x: 500_000, y: 0, z: 0 },
            normal: Vec3i { x: 0, y: -1_000_000i64, z: 0 },
            u: SCALE,
        }),
        (ProfileVertex {
            position: Vec3i { x: -500_000i64, y: 0, z: 0 },
            normal: Vec3i { x: 0, y: -1_000_000i64, z: 0 },
            u: SCALE,
        }),
        (ProfileVertex {
            position: Vec3i { x: -500_000i64, y: 0, z: 0 },
            normal: Vec3i { x: -1_000_000i64, y: 0, z: 0 },
            u: SCALE,
        }),
    ]
}

/// The triangulation template: for each flat face and each sharp-edge
/// boundary of the profile, the triangles joining corresponding indices of
/// the current ring (`0..16`) and the next ring (`16..32`).
pub open spec fn spec_template() -> Seq<u32> {
    seq![
        0u32, 16u32, 31u32,
        1u32, 18u32, 17u32,
        1u32, 2u32, 18u32,
        3u32, 20u32, 19u32,
        3u32, 4u32, 20u32,
        5u32, 22u32, 21u32,
        5u32, 6u32, 22u32,
        7u32, 24u32, 23u32,
        7u32, 8u32, 24u32,
        9u32, 26u32, 25u32,
        9u32, 10u32, 26u32,
        11u32, 28u32, 27u32,
        11u32, 12u32, 28u32,
        13u32, 30u32, 29u32,
        13u32, 14u32, 30u32,
        15u32, 16u32, 31u32,
        15u32, 0u32, 16u32,
    ]
}

/// Every template index addresses one of the two rings it stitches.
pub proof fn lemma_template_in_range()
    ensures
        spec_template().len() == 3 * TRIANGLES_PER_SEGMENT,
        forall|i: int|
            0 <= i < spec_template().len() ==> #[trigger] spec_template()[i] < 2 * VERTEX_COUNT,
{
    assert forall|i: int| 0 <= i < spec_template().len() implies #[trigger] spec_template()[i]
        < 2 * VERTEX_COUNT by {
        assert(spec_template().len() == 51);
    }
}

/// Every profile entry is within one world unit in position and normal,
/// with a planar position and a texture-U inside `[0, SCALE]`.
pub open spec fn profile_vertex_ok(pv: ProfileVertex) -> bool {
    &&& -SCALE <= pv.position.x <= SCALE
    &&& -SCALE <= pv.position.y <= SCALE
    &&& pv.position.z == 0
    &&& -SCALE <= pv.normal.x <= SCALE
    &&& -SCALE <= pv.normal.y <= SCALE
    &&& -SCALE <= pv.normal.z <= SCALE
    &&& 0 <= pv.u <= SCALE
}

pub proof fn lemma_profile_ok()
    ensures
        spec_profile().len() == VERTEX_COUNT,
        forall|j: int|
            0 <= j < spec_profile().len() ==> profile_vertex_ok(#[trigger] spec_profile()[j]),
{
    assert forall|j: int| 0 <= j < spec_profile().len() implies profile_vertex_ok(
        #[trigger] spec_profile()[j],
    ) by {
        assert(spec_profile().len() == 16);
    }
}

/// The cross-section polygon as a vector.
pub fn profile() -> (r: Vec<ProfileVertex>)
    ensures
        r@ == spec_profile(),
        r@.len() == VERTEX_COUNT,
{
    let mut v: Vec<ProfileVertex> = Vec::new();
    v.push(pv(-500_000, 300_000, -SCALE, 0, 0));
    v.push(pv(-500_000, 300_000, 0, SCALE, 0));
    v.push(pv(-300_000, 300_000, 0, SCALE, 50_000));
    v.push(pv(-300_000, 300_000, HALF_SQRT2, HALF_SQRT2, 50_000));
    v.push(pv(-200_000, 200_000, HALF_SQRT2, HALF_SQRT2, 100_000));
    v.push(pv(-200_000, 200_000, 0, SCALE, 100_000));
    v.push(pv(200_000, 200_000, 0, SCALE, 900_000));
    v.push(pv(200_000, 200_000, -HALF_SQRT2, HALF_SQRT2, 900_000));
    v.push(pv(300_000, 300_000, -HALF_SQRT2, HALF_SQRT2, 950_000));
    v.push(pv(300_000, 300_000, 0, SCALE, 950_000));
    v.push(pv(500_000, 300_000, 0, SCALE, SCALE));
    v.push(pv(500_000, 300_000, SCALE, 0, SCALE));
    v.push(pv(500_000, 0, SCALE, 0, SCALE));
    v.push(pv(500_000, 0, 0, -SCALE, SCALE));
    v.push(pv(-500_000, 0, 0, -SCALE, SCALE));
    v.push(pv(-500_000, 0, -SCALE, 0, SCALE));
    proof {
        assert(v@ =~= spec_profile());
    }
    v
}

/// Build one profile vertex in the profile plane (`z = 0`, planar normal).
fn pv(px: i64, py: i64, nx: i64, ny: i64, u: i64) -> (r: ProfileVertex)
    ensures
        r == (ProfileVertex {
            position: Vec3i { x: px, y: py, z: 0 },
            normal: Vec3i { x: nx, y: ny, z: 0 },
            u,
        }),
{
    ProfileVertex { position: Vec3i { x: px, y: py, z: 0 }, normal: Vec3i { x: nx, y: ny, z: 0 }, u }
}

/// The triangulation template as a vector.
pub fn template() -> (r: Vec<u32>)
    ensures
        r@ == spec_template(),
        r@.len() == 3 * TRIANGLES_PER_SEGMENT,
{
    let entries: [u32; 51] = [
        0, 16, 31,
        1, 18, 17,
        1, 2, 18,
        3, 20, 19,
        3, 4, 20,
        5, 22, 21,
        5, 6, 22,
        7, 24, 23,
        7, 8, 24,
        9, 26, 25,
        9, 10, 26,
        11, 28, 27,
        11, 12, 28,
        13, 30, 29,
        13, 14, 30,
        15, 16, 31,
        15, 0, 16,
    ];
    let mut v: Vec<u32> = Vec::new();
    let mut i: usize = 0;
    while i < 51
        invariant
            i <= 51,
            v@.len() == i,
            forall|j: int| 0 <= j < i ==> v@[j] == entries@[j],
        decreases 51 - i,
    {
        v.push(entries[i]);
        i += 1;
    }
    proof {
        assert(v@ =~= spec_template());
    }
    v
}

} // verus!

//! One recompute tick: read the control-point snapshot, order it by the
//! stable index, pick the spline segment, build the mesh and publish it.
//!
//! The editing layer owns the control points and the configuration; the
//! kernel only reads a snapshot.  Sorting by the stable index makes the
//! endpoint assignment independent of the order in which the editing layer
//! stores the points.

use vstd::prelude::*;

use itertools::Itertools;

use crate::artifact::{buffers_match, MeshArtifact, MeshArtifactManager};
use crate::curve::points_within;
use crate::error::KernelError;
use crate::math::{v3_within, Vec3i, MAX_COORD};
use crate::stitch::{
    build, build_ok, normals_of, positions_of, uvs_of, Vertex, MAX_DETAIL,
};

verus! {

/// One editable control point: a stable ordering key and a position.
#[derive(Clone, Copy, PartialEq, Eq, Structural, Debug)]
pub struct ControlPoint {
    pub index: u64,
    pub position: Vec3i,
}

/// The editing layer's configuration of the kernel.
#[derive(Clone, Copy, PartialEq, Eq, Structural, Debug)]
pub struct Config {
    /// Sample count along the curve; at least two samples are needed for a
    /// defined parameter step.
    pub detail: usize,
    /// When false the kernel is never run and the last published artifact
    /// stays as it is.
    pub auto_update: bool,
}

/// The ordered four control-point positions of one cubic segment.
#[derive(Clone, Copy, PartialEq, Eq, Structural, Debug)]
pub struct Spline {
    pub p0: Vec3i,
    pub p1: Vec3i,
    pub p2: Vec3i,
    pub p3: Vec3i,
}

/// Non-decreasing in the stable index.
pub open spec fn sorted_by_index(s: Seq<ControlPoint>) -> bool {
    forall|i: int, j: int|
        0 <= i <= j < s.len() ==> (#[trigger] s[i]).index <= (#[trigger] s[j]).index
}

/// Relies on itertools' `Itertools::sorted_by_key`: it collects the
/// elements into a vector and stable-sorts them by the key, so the result
/// is a permutation of the input in ascending key order.
#[verifier::external_body]
fn sort_by_index(points: Vec<ControlPoint>) -> (r: Vec<ControlPoint>)
    ensures
        r@.len() == points@.len(),
        r@.to_multiset() == points@.to_multiset(),
        sorted_by_index(r@),
{
    points.into_iter().sorted_by_key(|p| p.index).collect()
}

/// No two control points share a stable index.
pub open spec fn distinct_indices(s: Seq<ControlPoint>) -> bool {
    forall|i: int, j: int|
        0 <= i < j < s.len() ==> (#[trigger] s[i]).index != (#[trigger] s[j]).index
}

/// With pairwise distinct indices a snapshot admits exactly one
/// index-ordered arrangement, so the spline that `select_spline` picks is a
/// function of the snapshot alone.
pub proof fn lemma_sorted_arrangement_unique(s1: Seq<ControlPoint>, s2: Seq<ControlPoint>)
    requires
        sorted_by_index(s1),
        sorted_by_index(s2),
        s1.to_multiset() == s2.to_multiset(),
        distinct_indices(s1),
    ensures
        s1 == s2,
    decreases s1.len(),
{
    s1.to_multiset_ensures();
    s2.to_multiset_ensures();
    assert(s1.len() == s2.len());
    if s1.len() == 0 {
        assert(s1 =~= s2);
    } else {
        let a = s1[0];
        let b = s2[0];
        assert(s1.contains(a));
        assert(s1.to_multiset().count(a) > 0);
        assert(s2.contains(a));
        let w = choose|w: int| 0 <= w < s2.len() && s2[w] == a;
        assert(b.index <= a.index);
        assert(s2.contains(b));
        assert(s2.to_multiset().count(b) > 0);
        assert(s1.contains(b));
        let v = choose|v: int| 0 <= v < s1.len() && s1[v] == b;
        assert(a.index <= b.index);
        assert(v == 0) by {
            if v != 0 {
                assert(s1[0].index != s1[v].index);
            }
        }
        assert(a == b);
        let t1 = s1.remove(0);
        let t2 = s2.remove(0);
        assert(t1.to_multiset() =~= s1.to_multiset().remove(a));
        assert(t2.to_multiset() =~= s2.to_multiset().remove(a));
        assert(sorted_by_index(t1)) by {
            assert(forall|i: int, j: int|
                0 <= i <= j < t1.len() ==> t1[i] == s1[i + 1] && t1[j] == s1[j + 1]);
        }
        assert(sorted_by_index(t2)) by {
            assert(forall|i: int, j: int|
                0 <= i <= j < t2.len() ==> t2[i] == s2[i + 1] && t2[j] == s2[j + 1]);
        }
        assert(distinct_indices(t1)) by {
            assert(forall|i: int, j: int|
                0 <= i < j < t1.len() ==> t1[i] == s1[i + 1] && t1[j] == s1[j + 1]);
        }
        lemma_sorted_arrangement_unique(t1, t2);
        assert(s1 =~= s2) by {
            assert(forall|i: int| 1 <= i < s1.len() ==> s1[i] == t1[i - 1] && s2[i] == t2[i - 1]);
        }
    }
}

/// The segment a sorted snapshot defines: the last complete group of four
/// points (with exactly four points, those four).
pub open spec fn spline_of(s: Seq<ControlPoint>) -> Spline
    recommends
        s.len() >= 4,
{
    let b = (s.len() as int / 4) * 4 - 4;
    Spline { p0: s[b].position, p1: s[b + 1].position, p2: s[b + 2].position, p3: s[b + 3].position }
}

/// All positions of a snapshot are within the coordinate bound.
pub open spec fn points_in_bounds(s: Seq<ControlPoint>) -> bool {
    forall|i: int| 0 <= i < s.len() ==> v3_within((#[trigger] s[i]).position@, MAX_COORD as int)
}

/// Order the snapshot by the stable index and pick the spline segment.
/// Fewer than four points define no segment and are rejected.
pub fn select_spline(points: Vec<ControlPoint>) -> (r: Result<Spline, KernelError>)
    ensures
        r is Ok <==> points@.len() >= 4,
        r is Err ==> r->Err_0 == KernelError::InsufficientControlPoints,
        r is Ok ==> exists|s: Seq<ControlPoint>|
            {
                &&& sorted_by_index(s)
                &&& s.to_multiset() == points@.to_multiset()
                &&& s.len() == points@.len()
                &&& #[trigger] spline_of(s) == r->Ok_0
            },
        r is Ok && points_in_bounds(points@) ==> points_within(
            r->Ok_0.p0@,
            r->Ok_0.p1@,
            r->Ok_0.p2@,
            r->Ok_0.p3@,
        ),
{
    let sorted = sort_by_index(points);
    if sorted.len() < 4 {
        return Err(KernelError::InsufficientControlPoints);
    }
    let b: usize = (sorted.len() / 4) * 4 - 4;
    let spline = Spline {
        p0: sorted[b].position,
        p1: sorted[b + 1].position,
        p2: sorted[b + 2].position,
        p3: sorted[b + 3].position,
    };
    proof {
        let ghost_pts = points@;
        let s = sorted@;
        assert(spline_of(s) == spline);
        assert(sorted_by_index(s) && s.to_multiset() == ghost_pts.to_multiset() && s.len()
            == ghost_pts.len() && spline_of(s) == spline);
        if points_in_bounds(ghost_pts) {
            s.to_multiset_ensures();
            ghost_pts.to_multiset_ensures();
            let bi = b as int;
            assert forall|o: int| bi <= o < bi + 4 implies v3_within(s[o].position@, MAX_COORD as int) by {
                assert(s.contains(s[o]));
                assert(s.to_multiset().count(s[o]) > 0);
                assert(ghost_pts.contains(s[o]));
                let w = choose|w: int| 0 <= w < ghost_pts.len() && ghost_pts[w] == s[o];
                assert(v3_within(ghost_pts[w].position@, MAX_COORD as int));
            }
        }
    }
    Ok(spline)
}

/// The artifact's buffers are exactly the split of this vertex buffer and
/// this index buffer.
pub open spec fn published_from(a: MeshArtifact, verts: Seq<Vertex>, idx: Seq<u32>) -> bool {
    &&& a.positions@ == verts.map_values(|v: Vertex| v.point)
    &&& a.normals@ == verts.map_values(|v: Vertex| v.normal)
    &&& a.uvs@ == verts.map_values(|v: Vertex| v.uv)
    &&& a.indices@ == idx
}

/// The artifact holds the mesh built with `detail` samples on the spline
/// of some index-ordered permutation of the snapshot.
pub open spec fn tick_published(points: Seq<ControlPoint>, detail: int, a: MeshArtifact) -> bool {
    exists|s: Seq<ControlPoint>, verts: Seq<Vertex>, idx: Seq<u32>|
        #![trigger sorted_by_index(s), published_from(a, verts, idx)]
        {
            &&& sorted_by_index(s)
            &&& s.to_multiset() == points.to_multiset()
            &&& s.len() == points.len()
            &&& build_ok(
                spline_of(s).p0@,
                spline_of(s).p1@,
                spline_of(s).p2@,
                spline_of(s).p3@,
                detail,
                verts,
                idx,
            )
            &&& published_from(a, verts, idx)
        }
}

/// One recompute tick, as the editing layer triggers it.
///
/// With auto-update off nothing runs and nothing changes.  Otherwise the
/// snapshot is ordered by index; fewer than four points or a sample count
/// below two are rejected with the manager untouched; otherwise the mesh
/// is built and published, reusing the existing handle if there is one.
pub fn tick(manager: &mut MeshArtifactManager, points: Vec<ControlPoint>, config: &Config) -> (r:
    Result<Option<u64>, KernelError>)
    requires
        config.detail <= MAX_DETAIL,
        points_in_bounds(points@),
        old(manager).next_handle < u64::MAX,
    ensures
        !config.auto_update ==> r == Ok::<Option<u64>, KernelError>(None) && *final(manager)
            == *old(manager),
        config.auto_update && points@.len() < 4 ==> r == Err::<Option<u64>, KernelError>(
            KernelError::InsufficientControlPoints,
        ) && *final(manager) == *old(manager),
        config.auto_update && points@.len() >= 4 && config.detail < 2 ==> r == Err::<
            Option<u64>,
            KernelError,
        >(KernelError::InvalidDetail) && *final(manager) == *old(manager),
        config.auto_update && points@.len() >= 4 && config.detail >= 2 ==> {
            &&& r is Ok
            &&& r->Ok_0 is Some
            &&& final(manager).artifact is Some
            &&& final(manager).artifact_count() == 1
            &&& final(manager).artifact->0.handle == r->Ok_0->0
            &&& match old(manager).artifact {
                Some(a) => r->Ok_0->0 == a.handle && final(manager).next_handle == old(
                    manager,
                ).next_handle,
                None => r->Ok_0->0 == old(manager).next_handle && final(manager).next_handle
                    == old(manager).next_handle + 1,
            }
            &&& tick_published(points@, config.detail as int, final(manager).artifact->0)
        },
{
    if !config.auto_update {
        return Ok(None);
    }
    let ghost points0 = points@;
    let spline = match select_spline(points) {
        Ok(s) => s,
        Err(e) => {
            return Err(e);
        },
    };
    let (verts, idx) = match build(spline.p0, spline.p1, spline.p2, spline.p3, config.detail) {
        Ok(b) => b,
        Err(e) => {
            return Err(e);
        },
    };
    let positions = positions_of(&verts);
    let normals = normals_of(&verts);
    let uvs = uvs_of(&verts);
    let ghost gidx = idx@;
    proof {
        assert(positions@ =~= verts@.map_values(|v: Vertex| v.point));
        assert(normals@ =~= verts@.map_values(|v: Vertex| v.normal));
        assert(uvs@ =~= verts@.map_values(|v: Vertex| v.uv));
        assert(buffers_match(positions@, normals@, uvs@, idx@));
    }
    match manager.publish(positions, normals, uvs, idx) {
        Ok(h) => {
            proof {
                let s = choose|s: Seq<ControlPoint>|
                    {
                        &&& sorted_by_index(s)
                        &&& s.to_multiset() == points0.to_multiset()
                        &&& s.len() == points0.len()
                        &&& #[trigger] spline_of(s) == spline
                    };
                assert(sorted_by_index(s));
                assert(published_from(manager.artifact->0, verts@, gidx));
                assert(tick_published(points0, config.detail as int, manager.artifact->0));
            }
            Ok(Some(h))
        },
        Err(_) => {
            proof {
                assert(false);
            }
            Err(KernelError::BufferSizeMismatch)
        },
    }
}

} // verus!

//! Stitcher tests: buffer sizes, index ranges, determinism, the minimal
//! mesh, and the colinear extrusion scenario.

use road_mesh::error::KernelError;
use road_mesh::math::{Vec3i, SCALE};
use road_mesh::profile::{profile, template, TRIANGLES_PER_SEGMENT, VERTEX_COUNT};
use road_mesh::stitch::build;

fn colinear_points() -> (Vec3i, Vec3i, Vec3i, Vec3i) {
    (
        Vec3i::new(0, 0, 0),
        Vec3i::new(3_000_000, 0, 0),
        Vec3i::new(6_000_000, 0, 0),
        Vec3i::new(9_000_000, 0, 0),
    )
}

#[test]
fn profile_shape() {
    let prof = profile();
    assert_eq!(prof.len(), VERTEX_COUNT);
    assert_eq!(prof.len(), 16);
    assert_eq!(prof[0].position, Vec3i::new(-500_000, 300_000, 0));
    assert_eq!(prof[0].normal, Vec3i::new(-SCALE, 0, 0));
    assert_eq!(prof[0].u, 0);
    assert_eq!(prof[10].position, Vec3i::new(500_000, 300_000, 0));
    assert_eq!(prof[10].u, SCALE);
    // Duplicated sharp-edge vertices share a position, not a normal.
    assert_eq!(prof[0].position, prof[1].position);
    assert_ne!(prof[0].normal, prof[1].normal);
    for pv in prof.iter() {
        assert_eq!(pv.position.z, 0);
        assert!(0 <= pv.u && pv.u <= SCALE);
    }
}

#[test]
fn template_shape() {
    let tmpl = template();
    assert_eq!(tmpl.len(), 3 * TRIANGLES_PER_SEGMENT);
    assert_eq!(tmpl.len(), 51);
    assert_eq!(&tmpl[0..3], &[0, 16, 31]);
    assert_eq!(&tmpl[48..51], &[15, 0, 16]);
    for &v in tmpl.iter() {
        assert!(v < 2 * VERTEX_COUNT as u32);
    }
}

#[test]
fn build_buffer_sizes() {
    let (p0, p1, p2, p3) = colinear_points();
    let detail = 5;
    let (verts, idx) = build(p0, p1, p2, p3, detail).unwrap();
    assert_eq!(verts.len(), detail * VERTEX_COUNT);
    assert_eq!(idx.len(), (detail - 1) * TRIANGLES_PER_SEGMENT * 3);
    assert_eq!(idx.len() % 3, 0);
    for &i in idx.iter() {
        assert!((i as usize) < verts.len());
    }
}

#[test]
fn build_minimal_mesh_at_detail_two() {
    let (p0, p1, p2, p3) = colinear_points();
    let (verts, idx) = build(p0, p1, p2, p3, 2).unwrap();
    // Exactly two rings and one template's worth of triangles.
    assert_eq!(verts.len(), 2 * VERTEX_COUNT);
    assert_eq!(idx.len(), TRIANGLES_PER_SEGMENT * 3);
}

#[test]
fn build_index_blocks_offset_per_segment() {
    let (p0, p1, p2, p3) = colinear_points();
    let tmpl = template();
    let (_, idx) = build(p0, p1, p2, p3, 3).unwrap();
    assert_eq!(idx.len(), 2 * tmpl.len());
    for (m, &v) in tmpl.iter().enumerate() {
        assert_eq!(idx[m], v);
        assert_eq!(idx[tmpl.len() + m], v + VERTEX_COUNT as u32);
    }
}

#[test]
fn build_at_recommended_maximum_detail() {
    let (p0, p1, p2, p3) = colinear_points();
    let detail = 150;
    let (verts, idx) = build(p0, p1, p2, p3, detail).unwrap();
    assert_eq!(verts.len(), detail * VERTEX_COUNT);
    assert_eq!(idx.len(), (detail - 1) * TRIANGLES_PER_SEGMENT * 3);
}

#[test]
fn build_rejects_low_detail() {
    let (p0, p1, p2, p3) = colinear_points();
    assert_eq!(build(p0, p1, p2, p3, 1), Err(KernelError::InvalidDetail));
    assert_eq!(build(p0, p1, p2, p3, 0), Err(KernelError::InvalidDetail));
}

#[test]
fn build_is_deterministic() {
    let p0 = Vec3i::new(-1_000_000, 2_000_000, 500_000);
    let p1 = Vec3i::new(2_000_000, 4_000_000, -500_000);
    let p2 = Vec3i::new(5_000_000, -3_000_000, 1_500_000);
    let p3 = Vec3i::new(8_000_000, 1_000_000, 0);
    let a = build(p0, p1, p2, p3, 33).unwrap();
    let b = build(p0, p1, p2, p3, 33).unwrap();
    assert_eq!(a.0, b.0);
    assert_eq!(a.1, b.1);
}

#[test]
fn colinear_extrusion_scenario() {
    let (p0, p1, p2, p3) = colinear_points();
    let detail = 20;
    let (verts, idx) = build(p0, p1, p2, p3, detail).unwrap();
    assert_eq!(verts.len(), detail * VERTEX_COUNT);
    assert_eq!(idx.len(), (detail - 1) * TRIANGLES_PER_SEGMENT * 3);

    // Each ring lies in a plane of constant x, and the planes advance
    // monotonically from 0 to 9 units.
    let mut prev_x = -1i64;
    for k in 0..detail {
        let ring = &verts[k * VERTEX_COUNT..(k + 1) * VERTEX_COUNT];
        let x = ring[0].point.x;
        for v in ring {
            assert_eq!(v.point.x, x);
        }
        assert!(x > prev_x);
        prev_x = x;
    }
    assert_eq!(verts[0].point.x, 0);
    assert_eq!(verts[verts.len() - 1].point.x, 9_000_000);

    // Bounding box of the mesh, in fixed point: [0, 9] x [0, 0.3] x [-0.5, 0.5].
    let min_x = verts.iter().map(|v| v.point.x).min().unwrap();
    let max_x = verts.iter().map(|v| v.point.x).max().unwrap();
    let min_y = verts.iter().map(|v| v.point.y).min().unwrap();
    let max_y = verts.iter().map(|v| v.point.y).max().unwrap();
    let min_z = verts.iter().map(|v| v.point.z).min().unwrap();
    let max_z = verts.iter().map(|v| v.point.z).max().unwrap();
    assert_eq!((min_x, max_x), (0, 9_000_000));
    assert_eq!((min_y, max_y), (0, 300_000));
    assert_eq!((min_z, max_z), (-500_000, 500_000));

    // The v texture coordinate is the sample parameter: 0 on the first
    // ring, SCALE on the last.
    assert_eq!(verts[0].uv.y, 0);
    assert_eq!(verts[verts.len() - 1].uv.y, SCALE);
}

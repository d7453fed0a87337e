//! Artifact-manager and tick tests: handle reuse, idempotent publishing,
//! the error taxonomy, and the control-point ordering.

use road_mesh::artifact::MeshArtifactManager;
use road_mesh::error::KernelError;
use road_mesh::kernel::{select_spline, tick, Config, ControlPoint};
use road_mesh::math::{Vec2i, Vec3i};
use road_mesh::profile::VERTEX_COUNT;
use road_mesh::stitch::{build, normals_of, positions_of, uvs_of};

fn cp(index: u64, x: i64, y: i64, z: i64) -> ControlPoint {
    ControlPoint { index, position: Vec3i::new(x, y, z) }
}

fn four_points() -> Vec<ControlPoint> {
    vec![
        cp(0, 0, 0, 0),
        cp(1, 3_000_000, 0, 0),
        cp(2, 6_000_000, 0, 0),
        cp(3, 9_000_000, 0, 0),
    ]
}

#[test]
fn publish_allocates_once_and_reuses_handle() {
    let mut mgr = MeshArtifactManager::new();
    assert!(mgr.artifact.is_none());
    let positions = vec![Vec3i::new(0, 0, 0), Vec3i::new(1, 0, 0)];
    let normals = vec![Vec3i::new(0, 1, 0), Vec3i::new(0, 1, 0)];
    let uvs = vec![Vec2i::new(0, 0), Vec2i::new(1, 1)];
    let indices = vec![0u32, 1, 0];
    let h1 = mgr
        .publish(positions.clone(), normals.clone(), uvs.clone(), indices.clone())
        .unwrap();
    let next_after_first = mgr.next_handle;
    // Publishing the same buffers again keeps the one artifact and its handle.
    let h2 = mgr.publish(positions, normals, uvs, indices).unwrap();
    assert_eq!(h1, h2);
    assert_eq!(mgr.next_handle, next_after_first);
    assert!(mgr.artifact.is_some());
    assert_eq!(mgr.artifact.as_ref().unwrap().handle, h1);
}

#[test]
fn publish_rejects_mismatched_buffers() {
    let mut mgr = MeshArtifactManager::new();
    let positions = vec![Vec3i::new(0, 0, 0), Vec3i::new(1, 0, 0)];
    let normals = vec![Vec3i::new(0, 1, 0)];
    let uvs = vec![Vec2i::new(0, 0), Vec2i::new(1, 1)];
    let r = mgr.publish(positions, normals, uvs, vec![]);
    assert_eq!(r, Err(KernelError::BufferSizeMismatch));
    assert!(mgr.artifact.is_none());

    // An index past the vertex buffer is a mismatch too.
    let positions = vec![Vec3i::new(0, 0, 0), Vec3i::new(1, 0, 0)];
    let normals = vec![Vec3i::new(0, 1, 0), Vec3i::new(0, 1, 0)];
    let uvs = vec![Vec2i::new(0, 0), Vec2i::new(1, 1)];
    let r = mgr.publish(positions, normals, uvs, vec![0u32, 2]);
    assert_eq!(r, Err(KernelError::BufferSizeMismatch));
    assert!(mgr.artifact.is_none());
}

#[test]
fn select_spline_orders_by_stable_index() {
    let shuffled = vec![
        cp(3, 9_000_000, 0, 0),
        cp(1, 3_000_000, 0, 0),
        cp(0, 0, 0, 0),
        cp(2, 6_000_000, 0, 0),
    ];
    let spline = select_spline(shuffled).unwrap();
    assert_eq!(spline.p0, Vec3i::new(0, 0, 0));
    assert_eq!(spline.p1, Vec3i::new(3_000_000, 0, 0));
    assert_eq!(spline.p2, Vec3i::new(6_000_000, 0, 0));
    assert_eq!(spline.p3, Vec3i::new(9_000_000, 0, 0));
}

#[test]
fn select_spline_takes_last_complete_group() {
    // With more than four points, the segment is the last complete group
    // of four in index order.
    let mut pts = four_points();
    for i in 0..4 {
        pts.push(cp(4 + i, (10 + i as i64) * 1_000_000, 0, 0));
    }
    pts.push(cp(8, 20_000_000, 0, 0));
    let spline = select_spline(pts).unwrap();
    assert_eq!(spline.p0, Vec3i::new(10_000_000, 0, 0));
    assert_eq!(spline.p3, Vec3i::new(13_000_000, 0, 0));
}

#[test]
fn select_spline_rejects_too_few() {
    let r = select_spline(vec![cp(0, 0, 0, 0), cp(1, 1, 0, 0), cp(2, 2, 0, 0)]);
    assert_eq!(r, Err(KernelError::InsufficientControlPoints));
    assert_eq!(select_spline(vec![]), Err(KernelError::InsufficientControlPoints));
}

#[test]
fn select_spline_accepts_duplicate_indices() {
    // Equal stable indices still yield a spline from some index-ordered
    // arrangement of the snapshot.
    let pts = vec![
        cp(1, 9_000_000, 0, 0),
        cp(0, 0, 0, 0),
        cp(0, 1_000_000, 0, 0),
        cp(2, 12_000_000, 0, 0),
    ];
    let spline = select_spline(pts).unwrap();
    assert_eq!(spline.p3, Vec3i::new(12_000_000, 0, 0));
    assert_eq!(spline.p2, Vec3i::new(9_000_000, 0, 0));
    let first_two = [spline.p0.x, spline.p1.x];
    assert!(first_two == [0, 1_000_000] || first_two == [1_000_000, 0]);
}

#[test]
fn tick_skips_when_auto_update_off() {
    let mut mgr = MeshArtifactManager::new();
    let config = Config { detail: 20, auto_update: false };
    let r = tick(&mut mgr, four_points(), &config);
    assert_eq!(r, Ok(None));
    assert!(mgr.artifact.is_none());
}

#[test]
fn tick_rejects_insufficient_points_and_keeps_artifact() {
    let mut mgr = MeshArtifactManager::new();
    let config = Config { detail: 20, auto_update: true };
    let h = tick(&mut mgr, four_points(), &config).unwrap().unwrap();

    let before = mgr.artifact.clone().unwrap();
    let r = tick(&mut mgr, vec![cp(0, 0, 0, 0), cp(1, 1, 0, 0)], &config);
    assert_eq!(r, Err(KernelError::InsufficientControlPoints));

    // The prior artifact is untouched.
    let after = mgr.artifact.clone().unwrap();
    assert_eq!(after.handle, h);
    assert_eq!(after.handle, before.handle);
    assert_eq!(after.positions, before.positions);
    assert_eq!(after.normals, before.normals);
    assert_eq!(after.uvs, before.uvs);
    assert_eq!(after.indices, before.indices);
}

#[test]
fn tick_rejects_invalid_detail() {
    let mut mgr = MeshArtifactManager::new();
    let config = Config { detail: 1, auto_update: true };
    let r = tick(&mut mgr, four_points(), &config);
    assert_eq!(r, Err(KernelError::InvalidDetail));
    assert!(mgr.artifact.is_none());
}

#[test]
fn tick_publishes_the_built_mesh() {
    let mut mgr = MeshArtifactManager::new();
    let config = Config { detail: 7, auto_update: true };
    tick(&mut mgr, four_points(), &config).unwrap().unwrap();
    let artifact = mgr.artifact.clone().unwrap();

    let pts = four_points();
    let (verts, idx) = build(
        pts[0].position,
        pts[1].position,
        pts[2].position,
        pts[3].position,
        config.detail,
    )
    .unwrap();
    assert_eq!(artifact.positions, positions_of(&verts));
    assert_eq!(artifact.normals, normals_of(&verts));
    assert_eq!(artifact.uvs, uvs_of(&verts));
    assert_eq!(artifact.indices, idx);
}

#[test]
fn tick_reuses_handle_after_moving_a_point() {
    let mut mgr = MeshArtifactManager::new();
    let config = Config { detail: 20, auto_update: true };
    let h1 = tick(&mut mgr, four_points(), &config).unwrap().unwrap();
    let first = mgr.artifact.clone().unwrap();
    assert_eq!(first.positions.len(), 20 * VERTEX_COUNT);

    // Move one control point and rebuild.
    let mut moved = four_points();
    moved[2].position = Vec3i::new(6_000_000, 2_000_000, 0);
    let h2 = tick(&mut mgr, moved, &config).unwrap().unwrap();
    let second = mgr.artifact.clone().unwrap();

    // Same handle, same buffer lengths, different geometry.
    assert_eq!(h1, h2);
    assert_eq!(second.handle, first.handle);
    assert_eq!(second.positions.len(), first.positions.len());
    assert_eq!(second.normals.len(), first.normals.len());
    assert_eq!(second.uvs.len(), first.uvs.len());
    assert_eq!(second.indices, first.indices);
    assert_ne!(second.positions, first.positions);
}

//! The mesh artifact manager: owns at most one generated mesh per spline
//! and decides between first-time creation and in-place replacement.
//!
//! A handle is an opaque identifier for the renderable resource.  The first
//! successful publish allocates a fresh handle; every later publish keeps
//! the handle and overwrites the buffers in place, so no second renderable
//! entity ever appears for the same spline.

use vstd::prelude::*;

use crate::error::KernelError;
use crate::math::{Vec2i, Vec3i};

verus! {

/// One generated renderable mesh: three parallel attribute arrays of equal
/// length, a triangle-list index array whose entries address the attribute
/// arrays, and the opaque handle under which the renderer knows it.
#[derive(Clone, Debug)]
pub struct MeshArtifact {
    pub handle: u64,
    pub positions: Vec<Vec3i>,
    pub normals: Vec<Vec3i>,
    pub uvs: Vec<Vec2i>,
    pub indices: Vec<u32>,
}

/// Buffers that can be published: the attribute arrays run parallel and
/// every index addresses an existing vertex.
pub open spec fn buffers_match(
    positions: Seq<Vec3i>,
    normals: Seq<Vec3i>,
    uvs: Seq<Vec2i>,
    indices: Seq<u32>,
) -> bool {
    &&& normals.len() == positions.len()
    &&& uvs.len() == positions.len()
    &&& forall|i: int| 0 <= i < indices.len() ==> ((#[trigger] indices[i]) as int) < positions.len()
}

/// Owns the artifact of one spline: empty until the first publish, exactly
/// one artifact from then on.
pub struct MeshArtifactManager {
    pub artifact: Option<MeshArtifact>,
    pub next_handle: u64,
}

impl MeshArtifactManager {
    /// How many live artifacts the manager owns: never more than one.
    pub open spec fn artifact_count(self) -> int {
        if self.artifact is Some {
            1
        } else {
            0
        }
    }

    /// A manager with no artifact yet.
    pub fn new() -> (r: MeshArtifactManager)
        ensures
            r.artifact is None,
            r.artifact_count() == 0,
            r.next_handle == 1,
    {
        MeshArtifactManager { artifact: None, next_handle: 1 }
    }

    /// Publish vertex and index buffers.  Mismatched buffers are rejected
    /// untouched; otherwise the buffers replace the owned artifact's, under
    /// the existing handle if one exists and under a freshly allocated one
    /// if not, and the handle is returned.
    pub fn publish(
        &mut self,
        positions: Vec<Vec3i>,
        normals: Vec<Vec3i>,
        uvs: Vec<Vec2i>,
        indices: Vec<u32>,
    ) -> (r: Result<u64, KernelError>)
        requires
            old(self).next_handle < u64::MAX,
        ensures
            r is Ok <==> buffers_match(positions@, normals@, uvs@, indices@),
            r is Err ==> *final(self) == *old(self) && r->Err_0 == KernelError::BufferSizeMismatch,
            r is Ok ==> {
                &&& final(self).artifact == Some(
                    MeshArtifact { handle: r->Ok_0, positions, normals, uvs, indices },
                )
                &&& final(self).artifact_count() == 1
                &&& match old(self).artifact {
                    Some(a) => r->Ok_0 == a.handle && final(self).next_handle == old(
                        self,
                    ).next_handle,
                    None => r->Ok_0 == old(self).next_handle && final(self).next_handle == old(
                        self,
                    ).next_handle + 1,
                }
            },
    {
        if normals.len() != positions.len() || uvs.len() != positions.len() || !indices_in_range(
            &indices,
            positions.len(),
        ) {
            return Err(KernelError::BufferSizeMismatch);
        }
        let handle: u64 = match &self.artifact {
            Some(a) => a.handle,
            None => {
                let h = self.next_handle;
                self.next_handle = h + 1;
                h
            },
        };
        self.artifact = Some(MeshArtifact { handle, positions, normals, uvs, indices });
        Ok(handle)
    }
}

/// Whether every index addresses a vertex below `n`.
fn indices_in_range(indices: &Vec<u32>, n: usize) -> (r: bool)
    ensures
        r == (forall|i: int| 0 <= i < indices@.len() ==> ((#[trigger] indices@[i]) as int) < n as int),
{
    let mut i: usize = 0;
    while i < indices.len()
        invariant
            i <= indices@.len(),
            forall|j: int| 0 <= j < i ==> ((#[trigger] indices@[j]) as int) < n as int,
        decreases indices@.len() - i,
    {
        if indices[i] as usize >= n {
            return false;
        }
        i += 1;
    }
    true
}

} // verus!

//! The kernel's error taxonomy.

use vstd::prelude::*;

verus! {

/// Why a recompute produced no geometry.
#[derive(Clone, Copy, PartialEq, Eq, Structural, Debug)]
pub enum KernelError {
    /// Fewer than four control points were available, so no spline segment
    /// exists; the kernel does not run.
    InsufficientControlPoints,
    /// The sample count was below two, which would leave the parameter
    /// step undefined; rejected, never clamped.
    InvalidDetail,
    /// Buffers handed to `publish` disagreed in length, or an index
    /// addressed a vertex that does not exist.
    BufferSizeMismatch,
}

} // verus!

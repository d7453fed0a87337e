//! Procedural road-mesh generation kernel.
//!
//! A fixed polygonal cross-section is extruded along a cubic Bezier spline:
//! the curve is sampled at `detail` parameter values, a local coordinate
//! frame is derived at each sample, the cross-section profile is transformed
//! into world space at each frame to form a ring of vertices, and adjacent
//! rings are stitched into triangles.  A mesh artifact manager owns at most
//! one generated mesh and replaces its buffers in place on recomputation.
//! All geometry is carried in fixed-point coordinates (`SCALE` sub-units per
//! world unit) so that every computation is exact integer arithmetic.

pub mod artifact;
pub mod curve;
pub mod error;
pub mod kernel;
pub mod math;
pub mod profile;
pub mod stitch;

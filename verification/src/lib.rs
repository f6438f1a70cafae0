//! A composite 2D vector shape assembled from heterogeneous stroke segments
//! (lines, squares, circular arcs, tangent arcs, bezier curves, ellipses),
//! rendered onto an abstract drawing surface as a sequence of path primitives.
//!
//! All geometry is exact: coordinates live on an integer grid and angles are
//! binary angle units (a full turn is `angle::FULL_TURN` units), so every
//! derived point and every emitted primitive is pinned down precisely.

pub mod angle;
pub mod angular_slice;
pub mod canvas_point;
pub mod shape_config;
pub mod shape_segment;
pub mod contiguous_shape;
pub mod surface;

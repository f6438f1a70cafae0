//! One stroke of a composite shape: the kind of geometry it draws and the
//! terminal point it ends at.

use vstd::prelude::*;

verus! {

use crate::angular_slice::AngularSlice;
use crate::canvas_point::CanvasPoint;

/// The closed set of stroke kinds, each carrying its own geometry. Radii are
/// grid lengths and angles are angle units (`angle::FULL_TURN` to a turn).
#[derive(Clone, Copy, Debug, PartialEq, Eq, Structural)]
pub enum StrokeKind {
    /// A straight line to the segment's own coordinate.
    Line,
    /// A square whose diagonal runs between the two opposite corners given.
    Square(CanvasPoint, CanvasPoint),
    /// A square given by one corner, and the angle and length of the
    /// diagonal leaving it: the opposite corner is derived at render time.
    SquareVector(CanvasPoint, i64, i32),
    /// A circular arc around a center with a radius, sweeping an angular
    /// slice; drawn on a fresh sub-path.
    CircularArc(CanvasPoint, i32, AngularSlice),
    /// A tangent arc of the given radius, drawn from the current point
    /// through the control point given, toward the segment's coordinate.
    ControlledArc(CanvasPoint, i32),
    /// A cubic bezier curve with two control points, ending at the
    /// segment's coordinate.
    BezierCurve(CanvasPoint, CanvasPoint),
    /// An elliptic arc around a center with two radii and a rotation,
    /// sweeping an angular slice; drawn on a fresh sub-path.
    Ellipse(CanvasPoint, i32, i32, i64, AngularSlice),
}

/// One segment of a contiguous shape: a stroke kind plus the nominal
/// terminal point. `coordinates` is read directly by the kinds that need an
/// explicit endpoint (`Line`, `ControlledArc`, `BezierCurve`) and is ignored
/// by the others, whose endpoint is implied by their own geometry.
#[derive(Clone, Copy, Debug, PartialEq, Eq, Structural)]
pub struct ShapeSegment {
    pub stroke_kind: StrokeKind,
    pub coordinates: CanvasPoint,
}

} // verus!

//! The angular range `[start, end)` that an arc or an ellipse sweeps.

use vstd::prelude::*;

verus! {

use crate::angle::{angle_of, dir_x, dir_y, scaled, FULL_TURN, HALF_TURN, QUARTER_TURN};
use crate::canvas_point::CanvasPoint;

/// An angular range, both bounds in angle units (`FULL_TURN` to a
/// revolution). No invariant forces `start <= end`: a slice may run backwards
/// or span more than a full turn, and the drawing surface's arc primitive
/// reads the sweep direction from the pair as given.
#[derive(Clone, Copy, Debug, PartialEq, Eq, Structural)]
pub struct AngularSlice {
    pub start: i64,
    pub end: i64,
}

impl Default for AngularSlice {
    /// The empty range at angle 0.
    fn default() -> (s: Self)
        ensures
            s.start == 0,
            s.end == 0,
    {
        AngularSlice { start: 0, end: 0 }
    }
}

impl AngularSlice {
    /// Stores both angles verbatim, with no normalization.
    pub fn new(start: i64, end: i64) -> (s: Self)
        ensures
            s.start == start,
            s.end == end,
    {
        Self { start, end }
    }

    /// The slice beginning at `start` and sweeping `offset` units: negative
    /// offsets sweep backwards, and offsets beyond a full turn are kept.
    pub fn from_offset(start: i64, offset: i64) -> (s: Self)
        requires
            i64::MIN <= start + offset <= i64::MAX,
        ensures
            s.start == start,
            s.end == start + offset,
            s.end - s.start == offset,
    {
        Self { start, end: start + offset }
    }

    /// The slice whose bounds are the angles from `control` toward
    /// `point_one` and `point_two`: for an arc whose endpoints are known as
    /// points around a pivot rather than as angles.
    pub fn from_points(point_one: CanvasPoint, point_two: CanvasPoint, control: CanvasPoint) -> (s:
        Self)
        ensures
            s.start == angle_of(point_one.x - control.x, point_one.y - control.y),
            s.end == angle_of(point_two.x - control.x, point_two.y - control.y),
    {
        Self { start: control.angle_to(point_one), end: control.angle_to(point_two) }
    }

    /// The full circle `[0, FULL_TURN)`: its sweep is one whole turn exactly.
    pub fn circle() -> (s: Self)
        ensures
            s.start == 0,
            s.end == FULL_TURN,
            s.end - s.start == FULL_TURN,
    {
        Self { start: 0, end: FULL_TURN }
    }

    /// The half circle `[0, HALF_TURN)`: its sweep is half a turn exactly.
    pub fn semicircle() -> (s: Self)
        ensures
            s.start == 0,
            s.end == HALF_TURN,
            s.end - s.start == HALF_TURN,
    {
        Self { start: 0, end: HALF_TURN }
    }

    /// The half circle beginning at `start`.
    pub fn semicircle_from(start: i64) -> (s: Self)
        requires
            start + HALF_TURN <= i64::MAX,
        ensures
            s.start == start,
            s.end == start + HALF_TURN,
            s.end - s.start == HALF_TURN,
    {
        Self { start, end: start + HALF_TURN }
    }
}

/// `from_points` round-trips with placement by angle: when the two points
/// lie at distance `r` from `control` in the directions of angles `a1` and
/// `a2` — with `r` a whole positive multiple of the diamond radius, so that
/// placement is exact — the slice `from_points(point_one, point_two,
/// control)` builds is exactly `AngularSlice::new(a1, a2)`: its `start` is
/// `a1` and its `end` is `a2`.
pub proof fn lemma_from_points_round_trip(
    control: CanvasPoint,
    point_one: CanvasPoint,
    point_two: CanvasPoint,
    a1: int,
    a2: int,
    r: int,
)
    requires
        0 <= a1 < FULL_TURN,
        0 <= a2 < FULL_TURN,
        r >= 1,
        r % (QUARTER_TURN as int) == 0,
        point_one.x - control.x == scaled(r, dir_x(a1)),
        point_one.y - control.y == scaled(r, dir_y(a1)),
        point_two.x - control.x == scaled(r, dir_x(a2)),
        point_two.y - control.y == scaled(r, dir_y(a2)),
    ensures
        angle_of(point_one.x - control.x, point_one.y - control.y) == a1,
        angle_of(point_two.x - control.x, point_two.y - control.y) == a2,
{
    crate::angle::lemma_angle_of_inverts_dir(a1, r);
    crate::angle::lemma_angle_of_inverts_dir(a2, r);
}

} // verus!

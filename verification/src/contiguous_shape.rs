//! The aggregate shape and its render routine.
//!
//! Rendering walks the segment sequence in order and emits path primitives
//! to a drawing surface. The exact primitive sequence is defined by the spec
//! functions here (`shape_cmds` for a fully valid shape, `abort_cmds` for a
//! run cut short by invalid arc parameters), and `draw` is proved to emit
//! precisely that sequence.

use vstd::prelude::*;

verus! {

use crate::angle::{dir_x, dir_y, norm, scaled};
use crate::canvas_point::{dir_units, lemma_dir_bounded, scale_by_quarter, CanvasPoint};
use crate::shape_config::{IntersectType, ShapeConfig};
use crate::shape_segment::{ShapeSegment, StrokeKind};
use crate::surface::{DrawingSurface, PathCommand};

/// The fatal render outcome: which fallible primitive a drawing surface
/// rejected. Rendering stops at once; no stroke or fill follows.
#[derive(Clone, Copy, Debug, PartialEq, Eq, Structural)]
pub enum RenderError {
    InvalidArc,
    InvalidArcTo,
    InvalidEllipse,
}

/// A composite shape: a start point anchoring the initial move, the ordered
/// strokes, closing and filling flags, resolved style, and an intersection
/// tag that rendering never reads. Segment continuity is the builder's
/// promise; rendering trusts it.
#[derive(Clone, Debug)]
pub struct ContiguousShape {
    pub start: CanvasPoint,
    pub closed_shape: bool,
    pub filled_shape: bool,
    pub segments: Vec<ShapeSegment>,
    pub config: ShapeConfig,
    pub intersect_type: IntersectType,
}

impl Default for ContiguousShape {
    /// The degenerate shape: anchored at the origin, no segments, open,
    /// unfilled, default style.
    fn default() -> (s: Self)
        ensures
            s.start == (CanvasPoint { x: 0, y: 0 }),
            !s.closed_shape,
            !s.filled_shape,
            s.segments@ == Seq::<ShapeSegment>::empty(),
            s.config == (ShapeConfig {
                style: 0x0000_00FF,
                width: 1,
                cap: crate::shape_config::LineCap::Butt,
                fill: 0x0000_00FF,
            }),
            s.intersect_type == IntersectType::Unspecified,
    {
        let s = ContiguousShape {
            start: CanvasPoint { x: 0, y: 0 },
            closed_shape: false,
            filled_shape: false,
            segments: Vec::new(),
            config: ShapeConfig {
                style: 0x0000_00FF,
                width: 1,
                cap: crate::shape_config::LineCap::Butt,
                fill: 0x0000_00FF,
            },
            intersect_type: IntersectType::Unspecified,
        };
        proof {
            assert(s.segments@ =~= Seq::<ShapeSegment>::empty());
        }
        s
    }
}

/// The four path points of the square whose diagonal runs from the first
/// corner to the second, in draw order: the first corner, the diagonal's
/// midpoint displaced against the perpendicular of the half-diagonal, the
/// second corner, and the midpoint displaced along that perpendicular.
pub open spec fn square_pts(c1x: int, c1y: int, c2x: int, c2y: int) -> Seq<(int, int)> {
    let xd = (c2x - c1x) / 2;
    let yd = (c2y - c1y) / 2;
    let cx = (c1x + c2x) / 2;
    let cy = (c1y + c2y) / 2;
    seq![(c1x, c1y), (cx + yd, cy - xd), (c2x, c2y), (cx - yd, cy + xd)]
}

/// The self-contained closed sub-path drawn for a square: move to the first
/// corner, lines through the remaining three points, close.
pub open spec fn square_cmds(c1x: int, c1y: int, c2x: int, c2y: int) -> Seq<PathCommand> {
    let ps = square_pts(c1x, c1y, c2x, c2y);
    seq![
        PathCommand::MoveTo(ps[0].0 as i64, ps[0].1 as i64),
        PathCommand::LineTo(ps[1].0 as i64, ps[1].1 as i64),
        PathCommand::LineTo(ps[2].0 as i64, ps[2].1 as i64),
        PathCommand::LineTo(ps[3].0 as i64, ps[3].1 as i64),
        PathCommand::ClosePath,
    ]
}

/// The corner a square-by-vector stroke derives: the first corner displaced
/// by the diamond direction of the angle, scaled to the radius.
pub open spec fn square_vector_corner(c1: CanvasPoint, angle_units: i64, radius: i32) -> (
    int,
    int,
) {
    let na = norm(angle_units as int);
    ((c1.x as int) + scaled(radius as int, dir_x(na)), (c1.y as int) + scaled(
        radius as int,
        dir_y(na),
    ))
}

/// Whether a segment's parameters are acceptable to every drawing surface:
/// the three fallible primitives reject a negative radius.
pub open spec fn seg_ok(seg: ShapeSegment) -> bool {
    match seg.stroke_kind {
        StrokeKind::CircularArc(_, radius, _) => radius >= 0,
        StrokeKind::ControlledArc(_, radius) => radius >= 0,
        StrokeKind::Ellipse(_, rx, ry, _, _) => rx >= 0 && ry >= 0,
        _ => true,
    }
}

/// The error reported for a segment the surface rejects.
pub open spec fn seg_error(seg: ShapeSegment) -> RenderError {
    match seg.stroke_kind {
        StrokeKind::ControlledArc(_, _) => RenderError::InvalidArcTo,
        StrokeKind::Ellipse(_, _, _, _, _) => RenderError::InvalidEllipse,
        _ => RenderError::InvalidArc,
    }
}

/// The primitives a single segment emits.
pub open spec fn seg_cmds(seg: ShapeSegment) -> Seq<PathCommand> {
    match seg.stroke_kind {
        StrokeKind::Line => seq![
            PathCommand::LineTo(seg.coordinates.x as i64, seg.coordinates.y as i64),
        ],
        StrokeKind::Square(c1, c2) => square_cmds(
            c1.x as int,
            c1.y as int,
            c2.x as int,
            c2.y as int,
        ),
        StrokeKind::SquareVector(c1, angle_units, radius) => {
            let c2 = square_vector_corner(c1, angle_units, radius);
            square_cmds(c1.x as int, c1.y as int, c2.0, c2.1)
        },
        StrokeKind::CircularArc(center, radius, slice) => seq![
            PathCommand::BeginPath,
            (PathCommand::Arc {
                cx: center.x as i64,
                cy: center.y as i64,
                radius: radius as i64,
                start: slice.start,
                end: slice.end,
            }),
        ],
        StrokeKind::ControlledArc(control, radius) => seq![
            (PathCommand::ArcTo {
                cx: control.x as i64,
                cy: control.y as i64,
                x: seg.coordinates.x as i64,
                y: seg.coordinates.y as i64,
                radius: radius as i64,
            }),
        ],
        StrokeKind::BezierCurve(control_one, control_two) => seq![
            (PathCommand::BezierCurveTo {
                c1x: control_one.x as i64,
                c1y: control_one.y as i64,
                c2x: control_two.x as i64,
                c2y: control_two.y as i64,
                x: seg.coordinates.x as i64,
                y: seg.coordinates.y as i64,
            }),
        ],
        StrokeKind::Ellipse(center, rx, ry, rotation, slice) => seq![
            PathCommand::BeginPath,
            (PathCommand::Ellipse {
                cx: center.x as i64,
                cy: center.y as i64,
                rx: rx as i64,
                ry: ry as i64,
                rotation: rotation,
                start: slice.start,
                end: slice.end,
            }),
        ],
    }
}

/// The primitives a run of segments emits, in order.
pub open spec fn segs_cmds(segs: Seq<ShapeSegment>) -> Seq<PathCommand>
    decreases segs.len(),
{
    if segs.len() == 0 {
        Seq::empty()
    } else {
        segs_cmds(segs.drop_last()) + seg_cmds(segs.last())
    }
}

/// The index of the first segment a surface rejects, or the length when
/// every segment is acceptable.
pub open spec fn first_bad(segs: Seq<ShapeSegment>) -> int
    decreases segs.len(),
{
    if segs.len() == 0 {
        0
    } else if !seg_ok(segs[0]) {
        0
    } else {
        1 + first_bad(segs.subrange(1, segs.len() as int))
    }
}

/// Whether every segment of the shape is acceptable to a drawing surface.
pub open spec fn shape_ok(s: ContiguousShape) -> bool {
    forall|i: int| 0 <= i < s.segments@.len() ==> seg_ok(#[trigger] s.segments@[i])
}

/// The opening primitives of every render: a fresh path, the resolved
/// style, and the move to the shape's start.
pub open spec fn header_cmds(s: ContiguousShape) -> Seq<PathCommand> {
    seq![
        PathCommand::BeginPath,
        PathCommand::SetStrokeStyle(s.config.style),
        PathCommand::SetLineWidth(s.config.width),
        PathCommand::SetLineCap(s.config.cap),
        PathCommand::MoveTo(s.start.x as i64, s.start.y as i64),
    ]
}

/// The closing primitives of a complete render: the optional close, the
/// optional fill pass, and the stroke.
pub open spec fn footer_cmds(s: ContiguousShape) -> Seq<PathCommand> {
    (if s.closed_shape {
        seq![PathCommand::ClosePath]
    } else {
        Seq::empty()
    }) + (if s.filled_shape {
        seq![PathCommand::SetFillStyle(s.config.fill), PathCommand::Fill]
    } else {
        Seq::empty()
    }) + seq![PathCommand::Stroke]
}

/// Everything a complete render of a valid shape emits.
pub open spec fn shape_cmds(s: ContiguousShape) -> Seq<PathCommand> {
    header_cmds(s) + segs_cmds(s.segments@) + footer_cmds(s)
}

/// What a render aborted at the first rejected segment leaves on the
/// surface: the header, every segment before the rejected one, and the
/// fresh sub-path begun for an arc or an ellipse before its parameters were
/// refused. No stroke, fill or fill style is among them.
pub open spec fn abort_cmds(s: ContiguousShape) -> Seq<PathCommand> {
    let bad = first_bad(s.segments@);
    header_cmds(s) + segs_cmds(s.segments@.take(bad)) + (match s.segments@[bad].stroke_kind {
        StrokeKind::CircularArc(_, _, _) => seq![PathCommand::BeginPath],
        StrokeKind::Ellipse(_, _, _, _, _) => seq![PathCommand::BeginPath],
        _ => Seq::empty(),
    })
}

/// `first_bad` is what its name says: everything before it is acceptable,
/// and it is either the length or the index of a rejected segment.
pub proof fn lemma_first_bad(segs: Seq<ShapeSegment>)
    ensures
        0 <= first_bad(segs) <= segs.len(),
        first_bad(segs) < segs.len() ==> !seg_ok(segs[first_bad(segs)]),
        forall|j: int| 0 <= j < first_bad(segs) ==> seg_ok(#[trigger] segs[j]),
    decreases segs.len(),
{
    if segs.len() == 0 {
    } else if !seg_ok(segs[0]) {
    } else {
        let rest = segs.subrange(1, segs.len() as int);
        lemma_first_bad(rest);
        assert forall|j: int| 0 <= j < first_bad(segs) implies seg_ok(#[trigger] segs[j]) by {
            if j >= 1 {
                assert(segs[j] == rest[j - 1]);
            }
        }
        if first_bad(segs) < segs.len() {
            assert(segs[first_bad(segs)] == rest[first_bad(segs) - 1]);
        }
    }
}

/// A run that saw acceptable segments up to `i` and a rejected one at `i`
/// has its first rejected segment exactly at `i`.
proof fn lemma_first_bad_locate(segs: Seq<ShapeSegment>, i: int)
    requires
        0 <= i < segs.len(),
        forall|j: int| 0 <= j < i ==> seg_ok(#[trigger] segs[j]),
        !seg_ok(segs[i]),
    ensures
        first_bad(segs) == i,
{
    lemma_first_bad(segs);
}

/// Extending a prefix by one segment appends exactly that segment's
/// primitives.
proof fn lemma_segs_cmds_take_step(segs: Seq<ShapeSegment>, i: int)
    requires
        0 <= i < segs.len(),
    ensures
        segs_cmds(segs.take(i + 1)) == segs_cmds(segs.take(i)) + seg_cmds(segs[i]),
{
    let t = segs.take(i + 1);
    assert(t.drop_last() =~= segs.take(i));
    assert(t.last() == segs[i]);
}

impl ContiguousShape {
    /// Renders the shape onto a drawing surface.
    ///
    /// On success the surface has received exactly `shape_cmds(self)`, in
    /// order: the header, every segment's primitives, and the footer. When
    /// some segment's parameters are rejected — and that happens exactly
    /// when the shape is not `shape_ok` — rendering aborts at the first
    /// such segment: the surface has received exactly `abort_cmds(self)`,
    /// which ends before any stroke or fill, and the error names the
    /// rejected primitive.
    pub fn draw<S: DrawingSurface>(&self, surface: &mut S) -> (r: Result<(), RenderError>)
        ensures
            r.is_ok() <==> shape_ok(*self),
            r.is_ok() ==> final(surface).emitted() == old(surface).emitted() + shape_cmds(*self),
            r.is_err() ==> final(surface).emitted() == old(surface).emitted() + abort_cmds(
                *self,
            ),
            r.is_err() ==> first_bad(self.segments@) < self.segments@.len() && r == Err::<
                (),
                RenderError,
            >(seg_error(self.segments@[first_bad(self.segments@)])),
    {
        surface.begin_path();
        surface.set_stroke_style(self.config.style);
        surface.set_line_width(self.config.width);
        surface.set_line_cap(self.config.cap);
        surface.move_to(self.start.x as i64, self.start.y as i64);
        proof {
            assert(self.segments@.take(0) =~= Seq::<ShapeSegment>::empty());
            assert(surface.emitted() =~= old(surface).emitted() + header_cmds(*self)
                + segs_cmds(self.segments@.take(0)));
        }
        let n = self.segments.len();
        let mut i: usize = 0;
        while i < n
            invariant
                n == self.segments@.len(),
                0 <= i <= n,
                forall|j: int| 0 <= j < i ==> seg_ok(#[trigger] self.segments@[j]),
                surface.emitted() == old(surface).emitted() + header_cmds(*self) + segs_cmds(
                    self.segments@.take(i as int),
                ),
            decreases n - i,
        {
            let seg = self.segments[i];
            match seg.stroke_kind {
                StrokeKind::Line => {
                    surface.line_to(seg.coordinates.x as i64, seg.coordinates.y as i64);
                },
                StrokeKind::Square(c1, c2) => {
                    draw_square(surface, c1.x as i64, c1.y as i64, c2.x as i64, c2.y as i64);
                },
                StrokeKind::SquareVector(c1, angle_units, radius) => {
                    let (ux, uy) = dir_units(angle_units);
                    proof {
                        lemma_dir_bounded(norm(angle_units as int));
                        crate::canvas_point::lemma_scaled_bounded(
                            radius as int,
                            dir_x(norm(angle_units as int)),
                        );
                        crate::canvas_point::lemma_scaled_bounded(
                            radius as int,
                            dir_y(norm(angle_units as int)),
                        );
                    }
                    let c2x = c1.x as i64 + scale_by_quarter(radius as i64, ux);
                    let c2y = c1.y as i64 + scale_by_quarter(radius as i64, uy);
                    draw_square(surface, c1.x as i64, c1.y as i64, c2x, c2y);
                },
                StrokeKind::CircularArc(center, radius, slice) => {
                    surface.begin_path();
                    let res = surface.arc(
                        center.x as i64,
                        center.y as i64,
                        radius as i64,
                        slice.start,
                        slice.end,
                    );
                    match res {
                        Ok(_) => {},
                        Err(_) => {
                            proof {
                                lemma_first_bad_locate(self.segments@, i as int);
                            }
                            return Err(RenderError::InvalidArc);
                        },
                    }
                },
                StrokeKind::ControlledArc(control, radius) => {
                    let res = surface.arc_to(
                        control.x as i64,
                        control.y as i64,
                        seg.coordinates.x as i64,
                        seg.coordinates.y as i64,
                        radius as i64,
                    );
                    match res {
                        Ok(_) => {},
                        Err(_) => {
                            proof {
                                lemma_first_bad_locate(self.segments@, i as int);
                            }
                            return Err(RenderError::InvalidArcTo);
                        },
                    }
                },
                StrokeKind::BezierCurve(control_one, control_two) => {
                    surface.bezier_curve_to(
                        control_one.x as i64,
                        control_one.y as i64,
                        control_two.x as i64,
                        control_two.y as i64,
                        seg.coordinates.x as i64,
                        seg.coordinates.y as i64,
                    );
                },
                StrokeKind::Ellipse(center, rx, ry, rotation, slice) => {
                    surface.begin_path();
                    let res = surface.ellipse(
                        center.x as i64,
                        center.y as i64,
                        rx as i64,
                        ry as i64,
                        rotation,
                        slice.start,
                        slice.end,
                    );
                    match res {
                        Ok(_) => {},
                        Err(_) => {
                            proof {
                                lemma_first_bad_locate(self.segments@, i as int);
                            }
                            return Err(RenderError::InvalidEllipse);
                        },
                    }
                },
            }
            proof {
                lemma_segs_cmds_take_step(self.segments@, i as int);
                assert(surface.emitted() =~= old(surface).emitted() + header_cmds(*self)
                    + segs_cmds(self.segments@.take(i as int + 1)));
            }
            i += 1;
        }
        proof {
            assert(self.segments@.take(n as int) =~= self.segments@);
        }
        if self.closed_shape {
            surface.close_path();
        }
        if self.filled_shape {
            surface.set_fill_style(self.config.fill);
            surface.fill();
        }
        surface.stroke();
        proof {
            assert(surface.emitted() =~= old(surface).emitted() + shape_cmds(*self));
        }
        Ok(())
    }
}

/// Emits the closed four-point sub-path of a square with the given diagonal:
/// the shared tail of the two square stroke kinds.
fn draw_square<S: DrawingSurface>(surface: &mut S, c1x: i64, c1y: i64, c2x: i64, c2y: i64)
    requires
        -0x1_0000_0000 <= c1x <= 0x1_0000_0000,
        -0x1_0000_0000 <= c1y <= 0x1_0000_0000,
        -0x1_0000_0000 <= c2x <= 0x1_0000_0000,
        -0x1_0000_0000 <= c2y <= 0x1_0000_0000,
    ensures
        final(surface).emitted() == old(surface).emitted() + square_cmds(
            c1x as int,
            c1y as int,
            c2x as int,
            c2y as int,
        ),
{
    let xd = half_floor(c2x - c1x);
    let yd = half_floor(c2y - c1y);
    let cx = half_floor(c1x + c2x);
    let cy = half_floor(c1y + c2y);
    surface.move_to(c1x, c1y);
    surface.line_to(cx + yd, cy - xd);
    surface.line_to(c2x, c2y);
    surface.line_to(cx - yd, cy + xd);
    surface.close_path();
    proof {
        assert(surface.emitted() =~= old(surface).emitted() + square_cmds(
            c1x as int,
            c1y as int,
            c2x as int,
            c2y as int,
        ));
    }
}

/// Halves a value, rounding down.
fn half_floor(v: i64) -> (r: i64)
    requires
        -0x8_0000_0000_0000 <= v <= 0x8_0000_0000_0000,
    ensures
        r == (v as int) / 2,
{
    if v >= 0 {
        ((v as u64) / 2) as i64
    } else {
        let m = (-v) as u64;
        let q = ((m + 1) / 2) as i64;
        proof {
            lemma_half_neg(v as int, m as int, q as int);
        }
        -q
    }
}

/// The squared length of a vector.
pub open spec fn len2(x: int, y: int) -> int {
    x * x + y * y
}

/// The dot product of two vectors.
pub open spec fn dot(x1: int, y1: int, x2: int, y2: int) -> int {
    x1 * x2 + y1 * y2
}

/// The four path points of a square stroke really are a square: walking
/// them in draw order, consecutive sides have equal squared lengths and
/// meet at right angles, whatever the diagonal's direction. Exact on the
/// grid whenever both components of the diagonal are even, so that halving
/// loses nothing.
pub proof fn lemma_square_pts_form_square(c1x: int, c1y: int, c2x: int, c2y: int)
    requires
        (c2x - c1x) % 2 == 0,
        (c2y - c1y) % 2 == 0,
    ensures
        ({
            let ps = square_pts(c1x, c1y, c2x, c2y);
            let ax = ps[1].0 - ps[0].0;
            let ay = ps[1].1 - ps[0].1;
            let bx = ps[2].0 - ps[1].0;
            let by = ps[2].1 - ps[1].1;
            let ex = ps[3].0 - ps[2].0;
            let ey = ps[3].1 - ps[2].1;
            let fx = ps[0].0 - ps[3].0;
            let fy = ps[0].1 - ps[3].1;
            &&& len2(ax, ay) == len2(bx, by)
            &&& len2(bx, by) == len2(ex, ey)
            &&& len2(ex, ey) == len2(fx, fy)
            &&& dot(ax, ay, bx, by) == 0
            &&& dot(bx, by, ex, ey) == 0
            &&& dot(ex, ey, fx, fy) == 0
            &&& dot(fx, fy, ax, ay) == 0
        }),
{
    let u = (c2x - c1x) / 2;
    let v = (c2y - c1y) / 2;
    vstd::arithmetic::div_mod::lemma_fundamental_div_mod(c2x - c1x, 2);
    vstd::arithmetic::div_mod::lemma_fundamental_div_mod(c2y - c1y, 2);
    assert(c2x - c1x == 2 * u);
    assert(c2y - c1y == 2 * v);
    vstd::arithmetic::div_mod::lemma_div_multiples_vanish(c1x + u, 2);
    vstd::arithmetic::div_mod::lemma_div_multiples_vanish(c1y + v, 2);
    assert(c1x + c2x == 2 * (c1x + u));
    assert(c1y + c2y == 2 * (c1y + v));
    let ps = square_pts(c1x, c1y, c2x, c2y);
    assert(ps[1].0 - ps[0].0 == u + v);
    assert(ps[1].1 - ps[0].1 == v - u);
    assert(ps[2].0 - ps[1].0 == u - v);
    assert(ps[2].1 - ps[1].1 == v + u);
    assert(ps[3].0 - ps[2].0 == -(u + v));
    assert(ps[3].1 - ps[2].1 == -(v - u));
    assert(ps[0].0 - ps[3].0 == -(u - v));
    assert(ps[0].1 - ps[3].1 == -(v + u));
    assert(len2(u + v, v - u) == len2(u - v, v + u)) by (nonlinear_arith);
    assert(len2(-(u + v), -(v - u)) == len2(u + v, v - u)) by (nonlinear_arith);
    assert(len2(-(u - v), -(v + u)) == len2(u - v, v + u)) by (nonlinear_arith);
    assert(dot(u + v, v - u, u - v, v + u) == 0) by (nonlinear_arith);
    assert(dot(u - v, v + u, -(u + v), -(v - u)) == 0) by (nonlinear_arith);
    assert(dot(-(u + v), -(v - u), -(u - v), -(v + u)) == 0) by (nonlinear_arith);
    assert(dot(-(u - v), -(v + u), u + v, v - u) == 0) by (nonlinear_arith);
}

/// Rendering a shape with no segments emits exactly the header — a fresh
/// path, the style setup, the move to the start — then the optional close,
/// the optional fill pass, and the stroke, and nothing else.
pub proof fn lemma_empty_shape_cmds(s: ContiguousShape)
    requires
        s.segments@.len() == 0,
    ensures
        shape_cmds(s) == seq![
            PathCommand::BeginPath,
            PathCommand::SetStrokeStyle(s.config.style),
            PathCommand::SetLineWidth(s.config.width),
            PathCommand::SetLineCap(s.config.cap),
            PathCommand::MoveTo(s.start.x as i64, s.start.y as i64),
        ] + (if s.closed_shape {
            seq![PathCommand::ClosePath]
        } else {
            Seq::<PathCommand>::empty()
        }) + (if s.filled_shape {
            seq![PathCommand::SetFillStyle(s.config.fill), PathCommand::Fill]
        } else {
            Seq::<PathCommand>::empty()
        }) + seq![PathCommand::Stroke],
{
    assert(segs_cmds(s.segments@) =~= Seq::<PathCommand>::empty());
    assert(shape_cmds(s) =~= header_cmds(s) + footer_cmds(s));
    assert(header_cmds(s) + footer_cmds(s) =~= seq![
        PathCommand::BeginPath,
        PathCommand::SetStrokeStyle(s.config.style),
        PathCommand::SetLineWidth(s.config.width),
        PathCommand::SetLineCap(s.config.cap),
        PathCommand::MoveTo(s.start.x as i64, s.start.y as i64),
    ] + (if s.closed_shape {
        seq![PathCommand::ClosePath]
    } else {
        Seq::<PathCommand>::empty()
    }) + (if s.filled_shape {
        seq![PathCommand::SetFillStyle(s.config.fill), PathCommand::Fill]
    } else {
        Seq::<PathCommand>::empty()
    }) + seq![PathCommand::Stroke]);
}

/// Rendering is deterministic: the primitives appended to a surface are a
/// function of the shape alone, so two renders of one shape onto surfaces
/// with equal histories leave equal histories.
pub proof fn lemma_render_deterministic(
    s: ContiguousShape,
    before_one: Seq<PathCommand>,
    after_one: Seq<PathCommand>,
    before_two: Seq<PathCommand>,
    after_two: Seq<PathCommand>,
)
    requires
        after_one == before_one + shape_cmds(s),
        after_two == before_two + shape_cmds(s),
        before_one == before_two,
    ensures
        after_one == after_two,
{
}

/// Whether a primitive paints pixels or prepares to: a stroke, a fill, or
/// the setting of a fill style.
pub open spec fn is_paint(c: PathCommand) -> bool {
    ||| c == PathCommand::Stroke
    ||| c == PathCommand::Fill
    ||| c matches PathCommand::SetFillStyle(_)
}

/// No single segment ever emits a painting primitive.
proof fn lemma_seg_cmds_no_paint(seg: ShapeSegment)
    ensures
        forall|k: int| 0 <= k < seg_cmds(seg).len() ==> !is_paint(#[trigger] seg_cmds(seg)[k]),
{
}

/// No run of segments ever emits a painting primitive: strokes describe
/// geometry only, and painting is the render routine's closing step.
pub proof fn lemma_segs_cmds_no_paint(segs: Seq<ShapeSegment>)
    ensures
        forall|k: int|
            0 <= k < segs_cmds(segs).len() ==> !is_paint(#[trigger] segs_cmds(segs)[k]),
    decreases segs.len(),
{
    if segs.len() == 0 {
    } else {
        lemma_segs_cmds_no_paint(segs.drop_last());
        lemma_seg_cmds_no_paint(segs.last());
        let a = segs_cmds(segs.drop_last());
        let b = seg_cmds(segs.last());
        assert forall|k: int| 0 <= k < segs_cmds(segs).len() implies !is_paint(
            #[trigger] segs_cmds(segs)[k],
        ) by {
            if k < a.len() {
                assert(segs_cmds(segs)[k] == a[k]);
            } else {
                assert(segs_cmds(segs)[k] == b[k - a.len()]);
            }
        }
    }
}

/// An aborted render never paints: everything on the surface when rendering
/// stops — header, completed segments, the begun sub-path of the rejected
/// arc — comes before any stroke, fill, or fill style.
pub proof fn lemma_abort_paints_nothing(s: ContiguousShape)
    requires
        !shape_ok(s),
    ensures
        forall|k: int| 0 <= k < abort_cmds(s).len() ==> !is_paint(#[trigger] abort_cmds(s)[k]),
{
    let segs = s.segments@;
    let bad = first_bad(segs);
    lemma_first_bad(segs);
    lemma_segs_cmds_no_paint(segs.take(bad));
    let h = header_cmds(s);
    let m = segs_cmds(segs.take(bad));
    assert forall|k: int| 0 <= k < abort_cmds(s).len() implies !is_paint(
        #[trigger] abort_cmds(s)[k],
    ) by {
        if k < h.len() {
            assert(abort_cmds(s)[k] == h[k]);
        } else if k < h.len() + m.len() {
            assert(abort_cmds(s)[k] == (h + m)[k]);
            assert((h + m)[k] == m[k - h.len()]);
        } else {
            assert(abort_cmds(s)[k] == PathCommand::BeginPath);
        }
    }
}

/// Halving a negative value rounds down: `-((-v + 1) / 2) == v / 2`.
proof fn lemma_half_neg(v: int, m: int, q: int)
    requires
        v < 0,
        m == -v,
        q == (m + 1) / 2,
    ensures
        -q == v / 2,
{
    let k = m / 2;
    let s = m % 2;
    vstd::arithmetic::div_mod::lemma_fundamental_div_mod(m, 2);
    vstd::arithmetic::div_mod::lemma_mod_division_less_than_divisor(m, 2);
    if s == 0 {
        assert(m + 1 == 2 * k + 1);
        vstd::arithmetic::div_mod::lemma_div_multiples_vanish_fancy(k, 1, 2);
        vstd::arithmetic::div_mod::lemma_div_multiples_vanish(-k, 2);
        assert(v == 2 * (-k));
    } else {
        assert(m + 1 == 2 * (k + 1));
        vstd::arithmetic::div_mod::lemma_div_multiples_vanish(k + 1, 2);
        vstd::arithmetic::div_mod::lemma_div_multiples_vanish_fancy(-k - 1, 1, 2);
        assert(v == 2 * (-k - 1) + 1);
    }
}

} // verus!

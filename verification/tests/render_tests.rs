use shape_path::angular_slice::AngularSlice;
use shape_path::canvas_point::CanvasPoint;
use shape_path::contiguous_shape::{ContiguousShape, RenderError};
use shape_path::shape_config::{IntersectType, LineCap, ShapeConfig};
use shape_path::shape_segment::{ShapeSegment, StrokeKind};
use shape_path::surface::{DrawingSurface, PathCommand, RecordingSurface};

fn config() -> ShapeConfig {
    ShapeConfig { style: 0xFF00_00FF, width: 2, cap: LineCap::Round, fill: 0x00FF_00FF }
}

fn shape(segments: Vec<ShapeSegment>, closed: bool, filled: bool) -> ContiguousShape {
    ContiguousShape {
        start: CanvasPoint { x: 0, y: 0 },
        closed_shape: closed,
        filled_shape: filled,
        segments,
        config: config(),
        intersect_type: IntersectType::Unspecified,
    }
}

fn header() -> Vec<PathCommand> {
    vec![
        PathCommand::BeginPath,
        PathCommand::SetStrokeStyle(0xFF00_00FF),
        PathCommand::SetLineWidth(2),
        PathCommand::SetLineCap(LineCap::Round),
        PathCommand::MoveTo(0, 0),
    ]
}

#[test]
fn empty_shape_emits_header_and_stroke_only() {
    let mut surf = RecordingSurface::new();
    let r = shape(vec![], false, false).draw(&mut surf);
    assert!(r.is_ok());
    let mut expected = header();
    expected.push(PathCommand::Stroke);
    assert_eq!(surf.commands, expected);
}

#[test]
fn empty_closed_filled_shape_emits_close_fill_stroke() {
    let mut surf = RecordingSurface::new();
    let r = shape(vec![], true, true).draw(&mut surf);
    assert!(r.is_ok());
    let mut expected = header();
    expected.push(PathCommand::ClosePath);
    expected.push(PathCommand::SetFillStyle(0x00FF_00FF));
    expected.push(PathCommand::Fill);
    expected.push(PathCommand::Stroke);
    assert_eq!(surf.commands, expected);
}

#[test]
fn closed_two_line_shape_emits_exact_sequence() {
    let segments = vec![
        ShapeSegment { stroke_kind: StrokeKind::Line, coordinates: CanvasPoint { x: 10, y: 0 } },
        ShapeSegment { stroke_kind: StrokeKind::Line, coordinates: CanvasPoint { x: 10, y: 10 } },
    ];
    let mut surf = RecordingSurface::new();
    let r = shape(segments, true, false).draw(&mut surf);
    assert!(r.is_ok());
    let mut expected = header();
    expected.push(PathCommand::LineTo(10, 0));
    expected.push(PathCommand::LineTo(10, 10));
    expected.push(PathCommand::ClosePath);
    expected.push(PathCommand::Stroke);
    assert_eq!(surf.commands, expected);
    assert!(!surf.commands.contains(&PathCommand::Fill));
}

#[test]
fn full_circle_arc_begins_a_fresh_sub_path() {
    let segments = vec![
        ShapeSegment { stroke_kind: StrokeKind::Line, coordinates: CanvasPoint { x: 10, y: 0 } },
        ShapeSegment {
            stroke_kind: StrokeKind::CircularArc(
                CanvasPoint { x: 5, y: 5 },
                3,
                AngularSlice::circle(),
            ),
            coordinates: CanvasPoint { x: 0, y: 0 },
        },
    ];
    let mut surf = RecordingSurface::new();
    let r = shape(segments, false, false).draw(&mut surf);
    assert!(r.is_ok());
    let mut expected = header();
    expected.push(PathCommand::LineTo(10, 0));
    expected.push(PathCommand::BeginPath);
    expected.push(PathCommand::Arc { cx: 5, cy: 5, radius: 3, start: 0, end: 65536 });
    expected.push(PathCommand::Stroke);
    assert_eq!(surf.commands, expected);
}

#[test]
fn square_emits_self_closing_sub_path() {
    let segments = vec![ShapeSegment {
        stroke_kind: StrokeKind::Square(CanvasPoint { x: 0, y: 0 }, CanvasPoint { x: 10, y: 0 }),
        coordinates: CanvasPoint { x: 10, y: 0 },
    }];
    let mut surf = RecordingSurface::new();
    let r = shape(segments, false, false).draw(&mut surf);
    assert!(r.is_ok());
    let mut expected = header();
    expected.push(PathCommand::MoveTo(0, 0));
    expected.push(PathCommand::LineTo(5, -5));
    expected.push(PathCommand::LineTo(10, 0));
    expected.push(PathCommand::LineTo(5, 5));
    expected.push(PathCommand::ClosePath);
    expected.push(PathCommand::Stroke);
    assert_eq!(surf.commands, expected);
}

#[test]
fn square_with_odd_diagonal_rounds_down() {
    // grid halving rounds toward negative infinity, so an odd diagonal puts
    // the two derived points one half-step inside.
    let segments = vec![ShapeSegment {
        stroke_kind: StrokeKind::Square(CanvasPoint { x: 0, y: 0 }, CanvasPoint { x: 3, y: 0 }),
        coordinates: CanvasPoint { x: 3, y: 0 },
    }];
    let mut surf = RecordingSurface::new();
    let r = shape(segments, false, false).draw(&mut surf);
    assert!(r.is_ok());
    let mut expected = header();
    expected.push(PathCommand::MoveTo(0, 0));
    expected.push(PathCommand::LineTo(1, -1));
    expected.push(PathCommand::LineTo(3, 0));
    expected.push(PathCommand::LineTo(1, 1));
    expected.push(PathCommand::ClosePath);
    expected.push(PathCommand::Stroke);
    assert_eq!(surf.commands, expected);
}

#[test]
fn square_vector_derives_the_opposite_corner() {
    // angle 0: the diagonal runs east, so the derived corner is (8, 0).
    let segments = vec![ShapeSegment {
        stroke_kind: StrokeKind::SquareVector(CanvasPoint { x: 0, y: 0 }, 0, 8),
        coordinates: CanvasPoint { x: 0, y: 0 },
    }];
    let mut surf = RecordingSurface::new();
    let r = shape(segments, false, false).draw(&mut surf);
    assert!(r.is_ok());
    let mut expected = header();
    expected.push(PathCommand::MoveTo(0, 0));
    expected.push(PathCommand::LineTo(4, -4));
    expected.push(PathCommand::LineTo(8, 0));
    expected.push(PathCommand::LineTo(4, 4));
    expected.push(PathCommand::ClosePath);
    expected.push(PathCommand::Stroke);
    assert_eq!(surf.commands, expected);
}

#[test]
fn square_vector_follows_the_angle() {
    // a quarter turn: the diagonal runs north, so the derived corner is (0, 8).
    let segments = vec![ShapeSegment {
        stroke_kind: StrokeKind::SquareVector(CanvasPoint { x: 0, y: 0 }, 16384, 8),
        coordinates: CanvasPoint { x: 0, y: 0 },
    }];
    let mut surf = RecordingSurface::new();
    let r = shape(segments, false, false).draw(&mut surf);
    assert!(r.is_ok());
    let mut expected = header();
    expected.push(PathCommand::MoveTo(0, 0));
    expected.push(PathCommand::LineTo(4, 4));
    expected.push(PathCommand::LineTo(0, 8));
    expected.push(PathCommand::LineTo(-4, 4));
    expected.push(PathCommand::ClosePath);
    expected.push(PathCommand::Stroke);
    assert_eq!(surf.commands, expected);
}

#[test]
fn bezier_and_tangent_arc_continue_the_sub_path() {
    let segments = vec![
        ShapeSegment {
            stroke_kind: StrokeKind::BezierCurve(
                CanvasPoint { x: 1, y: 2 },
                CanvasPoint { x: 3, y: 4 },
            ),
            coordinates: CanvasPoint { x: 5, y: 6 },
        },
        ShapeSegment {
            stroke_kind: StrokeKind::ControlledArc(CanvasPoint { x: 10, y: 0 }, 5),
            coordinates: CanvasPoint { x: 10, y: 10 },
        },
    ];
    let mut surf = RecordingSurface::new();
    let r = shape(segments, false, false).draw(&mut surf);
    assert!(r.is_ok());
    let mut expected = header();
    expected.push(PathCommand::BezierCurveTo { c1x: 1, c1y: 2, c2x: 3, c2y: 4, x: 5, y: 6 });
    expected.push(PathCommand::ArcTo { cx: 10, cy: 0, x: 10, y: 10, radius: 5 });
    expected.push(PathCommand::Stroke);
    assert_eq!(surf.commands, expected);
}

#[test]
fn ellipse_begins_a_fresh_sub_path() {
    let segments = vec![ShapeSegment {
        stroke_kind: StrokeKind::Ellipse(
            CanvasPoint { x: 5, y: 5 },
            3,
            2,
            100,
            AngularSlice::semicircle(),
        ),
        coordinates: CanvasPoint { x: 0, y: 0 },
    }];
    let mut surf = RecordingSurface::new();
    let r = shape(segments, false, false).draw(&mut surf);
    assert!(r.is_ok());
    let mut expected = header();
    expected.push(PathCommand::BeginPath);
    expected.push(
        PathCommand::Ellipse { cx: 5, cy: 5, rx: 3, ry: 2, rotation: 100, start: 0, end: 32768 },
    );
    expected.push(PathCommand::Stroke);
    assert_eq!(surf.commands, expected);
}

#[test]
fn negative_arc_radius_aborts_before_any_paint() {
    let segments = vec![ShapeSegment {
        stroke_kind: StrokeKind::CircularArc(
            CanvasPoint { x: 5, y: 5 },
            -1,
            AngularSlice::circle(),
        ),
        coordinates: CanvasPoint { x: 0, y: 0 },
    }];
    let mut surf = RecordingSurface::new();
    let r = shape(segments, true, true).draw(&mut surf);
    assert_eq!(r, Err(RenderError::InvalidArc));
    let mut expected = header();
    expected.push(PathCommand::BeginPath);
    assert_eq!(surf.commands, expected);
    assert!(!surf.commands.contains(&PathCommand::Stroke));
    assert!(!surf.commands.contains(&PathCommand::Fill));
}

#[test]
fn negative_tangent_arc_radius_aborts() {
    let segments = vec![
        ShapeSegment { stroke_kind: StrokeKind::Line, coordinates: CanvasPoint { x: 10, y: 0 } },
        ShapeSegment {
            stroke_kind: StrokeKind::ControlledArc(CanvasPoint { x: 10, y: 0 }, -5),
            coordinates: CanvasPoint { x: 10, y: 10 },
        },
        ShapeSegment { stroke_kind: StrokeKind::Line, coordinates: CanvasPoint { x: 0, y: 0 } },
    ];
    let mut surf = RecordingSurface::new();
    let r = shape(segments, false, false).draw(&mut surf);
    assert_eq!(r, Err(RenderError::InvalidArcTo));
    let mut expected = header();
    expected.push(PathCommand::LineTo(10, 0));
    assert_eq!(surf.commands, expected);
    assert!(!surf.commands.contains(&PathCommand::Stroke));
}

#[test]
fn negative_ellipse_radius_aborts() {
    let segments = vec![ShapeSegment {
        stroke_kind: StrokeKind::Ellipse(
            CanvasPoint { x: 5, y: 5 },
            3,
            -2,
            0,
            AngularSlice::circle(),
        ),
        coordinates: CanvasPoint { x: 0, y: 0 },
    }];
    let mut surf = RecordingSurface::new();
    let r = shape(segments, false, true).draw(&mut surf);
    assert_eq!(r, Err(RenderError::InvalidEllipse));
    let mut expected = header();
    expected.push(PathCommand::BeginPath);
    assert_eq!(surf.commands, expected);
    assert!(!surf.commands.contains(&PathCommand::SetFillStyle(0x00FF_00FF)));
}

#[test]
fn rendering_twice_records_identical_sequences() {
    let segments = vec![
        ShapeSegment { stroke_kind: StrokeKind::Line, coordinates: CanvasPoint { x: 10, y: 0 } },
        ShapeSegment {
            stroke_kind: StrokeKind::CircularArc(
                CanvasPoint { x: 5, y: 5 },
                3,
                AngularSlice::semicircle(),
            ),
            coordinates: CanvasPoint { x: 0, y: 0 },
        },
    ];
    let s = shape(segments, true, true);
    let mut one = RecordingSurface::new();
    let mut two = RecordingSurface::new();
    assert!(s.draw(&mut one).is_ok());
    assert!(s.draw(&mut two).is_ok());
    assert_eq!(one.commands, two.commands);
}

#[test]
fn default_shape_is_degenerate() {
    let s = ContiguousShape::default();
    assert_eq!(s.segments.len(), 0);
    assert!(!s.closed_shape);
    assert!(!s.filled_shape);
    assert_eq!(s.intersect_type, IntersectType::Unspecified);
    let mut surf = RecordingSurface::new();
    assert!(s.draw(&mut surf).is_ok());
    assert_eq!(surf.commands.last(), Some(&PathCommand::Stroke));
}

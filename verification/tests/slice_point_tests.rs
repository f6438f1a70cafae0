use shape_path::angle::{FULL_TURN, HALF_TURN, QUARTER_TURN};
use shape_path::angular_slice::AngularSlice;
use shape_path::canvas_point::CanvasPoint;

#[test]
fn circle_sweeps_exactly_one_turn() {
    let c = AngularSlice::circle();
    assert_eq!(c.start, 0);
    assert_eq!(c.end, FULL_TURN);
    assert_eq!(c.end - c.start, FULL_TURN);
}

#[test]
fn semicircle_sweeps_exactly_half_a_turn() {
    let s = AngularSlice::semicircle();
    assert_eq!(s.start, 0);
    assert_eq!(s.end, HALF_TURN);
    assert_eq!(s.end - s.start, HALF_TURN);
}

#[test]
fn semicircle_from_keeps_its_start() {
    let s = AngularSlice::semicircle_from(1000);
    assert_eq!(s.start, 1000);
    assert_eq!(s.end, 1000 + HALF_TURN);
}

#[test]
fn from_offset_sweeps_exactly_the_offset() {
    let s = AngularSlice::from_offset(100, 250);
    assert_eq!(s.end - s.start, 250);
    let backwards = AngularSlice::from_offset(100, -250);
    assert_eq!(backwards.start, 100);
    assert_eq!(backwards.end, -150);
    assert_eq!(backwards.end - backwards.start, -250);
    let more_than_a_turn = AngularSlice::from_offset(-3, 3 * FULL_TURN);
    assert_eq!(more_than_a_turn.end - more_than_a_turn.start, 3 * FULL_TURN);
}

#[test]
fn new_stores_angles_verbatim() {
    let s = AngularSlice::new(-7, 9999999);
    assert_eq!(s.start, -7);
    assert_eq!(s.end, 9999999);
}

#[test]
fn default_slice_is_empty_at_zero() {
    let s = AngularSlice::default();
    assert_eq!(s, AngularSlice::new(0, 0));
}

#[test]
fn angle_to_cardinal_directions() {
    let o = CanvasPoint { x: 0, y: 0 };
    assert_eq!(o.angle_to(CanvasPoint { x: 7, y: 0 }), 0);
    assert_eq!(o.angle_to(CanvasPoint { x: 0, y: 7 }), QUARTER_TURN);
    assert_eq!(o.angle_to(CanvasPoint { x: -7, y: 0 }), HALF_TURN);
    assert_eq!(o.angle_to(CanvasPoint { x: 0, y: -7 }), 3 * QUARTER_TURN);
}

#[test]
fn angle_to_diagonals_and_degenerate() {
    let o = CanvasPoint { x: 0, y: 0 };
    assert_eq!(o.angle_to(CanvasPoint { x: 5, y: 5 }), QUARTER_TURN / 2);
    assert_eq!(o.angle_to(CanvasPoint { x: -3, y: -3 }), HALF_TURN + QUARTER_TURN / 2);
    assert_eq!(o.angle_to(o), 0);
}

#[test]
fn angle_to_is_translation_invariant() {
    let a = CanvasPoint { x: 100, y: -40 };
    let b = CanvasPoint { x: 107, y: -33 };
    let o = CanvasPoint { x: 0, y: 0 };
    assert_eq!(a.angle_to(b), o.angle_to(CanvasPoint { x: 7, y: 7 }));
}

#[test]
fn point_at_cardinal_directions() {
    let o = CanvasPoint { x: 0, y: 0 };
    assert_eq!(o.point_at(0, 100), CanvasPoint { x: 100, y: 0 });
    assert_eq!(o.point_at(QUARTER_TURN, 100), CanvasPoint { x: 0, y: 100 });
    assert_eq!(o.point_at(HALF_TURN, 100), CanvasPoint { x: -100, y: 0 });
    assert_eq!(o.point_at(3 * QUARTER_TURN, 100), CanvasPoint { x: 0, y: -100 });
}

#[test]
fn point_at_normalizes_the_angle() {
    let o = CanvasPoint { x: 10, y: 20 };
    assert_eq!(o.point_at(-QUARTER_TURN, 100), o.point_at(3 * QUARTER_TURN, 100));
    assert_eq!(o.point_at(FULL_TURN + 5, 100), o.point_at(5, 100));
}

#[test]
fn from_points_reads_angles_around_the_control() {
    let control = CanvasPoint { x: 0, y: 0 };
    let east = CanvasPoint { x: 5, y: 0 };
    let north = CanvasPoint { x: 0, y: 7 };
    let s = AngularSlice::from_points(east, north, control);
    assert_eq!(s, AngularSlice::new(0, QUARTER_TURN));
}

#[test]
fn from_points_round_trips_placement_by_angle() {
    // Points placed at a radius that is a whole multiple of the diamond
    // radius recover their angles exactly.
    let control = CanvasPoint { x: 3, y: 4 };
    let a1: i64 = 1000;
    let a2: i64 = 50000;
    let p1 = control.point_at(a1, QUARTER_TURN as i32);
    let p2 = control.point_at(a2, 2 * QUARTER_TURN as i32);
    let s = AngularSlice::from_points(p1, p2, control);
    assert_eq!(s, AngularSlice::new(a1, a2));
}

#[test]
fn default_point_is_the_origin() {
    assert_eq!(CanvasPoint::default(), CanvasPoint { x: 0, y: 0 });
}

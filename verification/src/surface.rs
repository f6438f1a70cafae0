//! The abstract 2D drawing surface: the one interface boundary of the crate.
//!
//! Rendering translates a shape into path primitives; any environment that
//! offers an equivalent path/stroke/fill vocabulary (a native canvas, an SVG
//! path builder, a plotter) can stand behind this trait. The trait's
//! contracts say exactly which primitive each call appends to the surface's
//! history, so a caller's output is pinned down command for command.

use vstd::prelude::*;

verus! {

use crate::shape_config::LineCap;

/// One path primitive, with all its parameters. Coordinates are wide enough
/// to carry every derived point a stroke can produce from grid inputs.
#[derive(Clone, Copy, Debug, PartialEq, Eq, Structural)]
pub enum PathCommand {
    BeginPath,
    SetStrokeStyle(u32),
    SetLineWidth(u32),
    SetLineCap(LineCap),
    MoveTo(i64, i64),
    LineTo(i64, i64),
    Arc { cx: i64, cy: i64, radius: i64, start: i64, end: i64 },
    ArcTo { cx: i64, cy: i64, x: i64, y: i64, radius: i64 },
    BezierCurveTo { c1x: i64, c1y: i64, c2x: i64, c2y: i64, x: i64, y: i64 },
    Ellipse { cx: i64, cy: i64, rx: i64, ry: i64, rotation: i64, start: i64, end: i64 },
    ClosePath,
    SetFillStyle(u32),
    Fill,
    Stroke,
}

/// A 2D drawing surface. `emitted` is the history of primitives the surface
/// has received, oldest first; every method appends to it and never rewrites
/// it. The three fallible primitives reject a negative radius, reject it
/// consistently, and leave the history untouched when they do.
pub trait DrawingSurface: Sized {
    spec fn emitted(&self) -> Seq<PathCommand>;

    fn begin_path(&mut self)
        ensures
            final(self).emitted() == old(self).emitted().push(PathCommand::BeginPath),
    ;

    fn set_stroke_style(&mut self, style: u32)
        ensures
            final(self).emitted() == old(self).emitted().push(
                PathCommand::SetStrokeStyle(style),
            ),
    ;

    fn set_line_width(&mut self, width: u32)
        ensures
            final(self).emitted() == old(self).emitted().push(PathCommand::SetLineWidth(width)),
    ;

    fn set_line_cap(&mut self, cap: LineCap)
        ensures
            final(self).emitted() == old(self).emitted().push(PathCommand::SetLineCap(cap)),
    ;

    fn move_to(&mut self, x: i64, y: i64)
        ensures
            final(self).emitted() == old(self).emitted().push(PathCommand::MoveTo(x, y)),
    ;

    fn line_to(&mut self, x: i64, y: i64)
        ensures
            final(self).emitted() == old(self).emitted().push(PathCommand::LineTo(x, y)),
    ;

    fn arc(&mut self, cx: i64, cy: i64, radius: i64, start: i64, end: i64) -> (r: Result<
        (),
        (),
    >)
        ensures
            r.is_ok() <==> radius >= 0,
            r.is_ok() ==> final(self).emitted() == old(self).emitted().push(
                (PathCommand::Arc { cx, cy, radius, start, end }),
            ),
            r.is_err() ==> final(self).emitted() == old(self).emitted(),
    ;

    fn arc_to(&mut self, cx: i64, cy: i64, x: i64, y: i64, radius: i64) -> (r: Result<(), ()>)
        ensures
            r.is_ok() <==> radius >= 0,
            r.is_ok() ==> final(self).emitted() == old(self).emitted().push(
                (PathCommand::ArcTo { cx, cy, x, y, radius }),
            ),
            r.is_err() ==> final(self).emitted() == old(self).emitted(),
    ;

    fn bezier_curve_to(&mut self, c1x: i64, c1y: i64, c2x: i64, c2y: i64, x: i64, y: i64)
        ensures
            final(self).emitted() == old(self).emitted().push(
                (PathCommand::BezierCurveTo { c1x, c1y, c2x, c2y, x, y }),
            ),
    ;

    fn ellipse(
        &mut self,
        cx: i64,
        cy: i64,
        rx: i64,
        ry: i64,
        rotation: i64,
        start: i64,
        end: i64,
    ) -> (r: Result<(), ()>)
        ensures
            r.is_ok() <==> rx >= 0 && ry >= 0,
            r.is_ok() ==> final(self).emitted() == old(self).emitted().push(
                (PathCommand::Ellipse { cx, cy, rx, ry, rotation, start, end }),
            ),
            r.is_err() ==> final(self).emitted() == old(self).emitted(),
    ;

    fn close_path(&mut self)
        ensures
            final(self).emitted() == old(self).emitted().push(PathCommand::ClosePath),
    ;

    fn set_fill_style(&mut self, style: u32)
        ensures
            final(self).emitted() == old(self).emitted().push(PathCommand::SetFillStyle(style)),
    ;

    fn fill(&mut self)
        ensures
            final(self).emitted() == old(self).emitted().push(PathCommand::Fill),
    ;

    fn stroke(&mut self)
        ensures
            final(self).emitted() == old(self).emitted().push(PathCommand::Stroke),
    ;
}

/// A surface that simply records every primitive it receives: the reference
/// implementation of `DrawingSurface`, and the one a test inspects.
pub struct RecordingSurface {
    pub commands: Vec<PathCommand>,
}

impl RecordingSurface {
    /// A fresh surface with an empty history.
    pub fn new() -> (s: Self)
        ensures
            s.emitted() == Seq::<PathCommand>::empty(),
    {
        let s = RecordingSurface { commands: Vec::new() };
        proof {
            assert(s.commands@ =~= Seq::<PathCommand>::empty());
        }
        s
    }
}

impl DrawingSurface for RecordingSurface {
    open spec fn emitted(&self) -> Seq<PathCommand> {
        self.commands@
    }

    fn begin_path(&mut self) {
        self.commands.push(PathCommand::BeginPath);
    }

    fn set_stroke_style(&mut self, style: u32) {
        self.commands.push(PathCommand::SetStrokeStyle(style));
    }

    fn set_line_width(&mut self, width: u32) {
        self.commands.push(PathCommand::SetLineWidth(width));
    }

    fn set_line_cap(&mut self, cap: LineCap) {
        self.commands.push(PathCommand::SetLineCap(cap));
    }

    fn move_to(&mut self, x: i64, y: i64) {
        self.commands.push(PathCommand::MoveTo(x, y));
    }

    fn line_to(&mut self, x: i64, y: i64) {
        self.commands.push(PathCommand::LineTo(x, y));
    }

    fn arc(&mut self, cx: i64, cy: i64, radius: i64, start: i64, end: i64) -> (r: Result<
        (),
        (),
    >) {
        if radius < 0 {
            Err(())
        } else {
            self.commands.push(PathCommand::Arc { cx, cy, radius, start, end });
            Ok(())
        }
    }

    fn arc_to(&mut self, cx: i64, cy: i64, x: i64, y: i64, radius: i64) -> (r: Result<(), ()>) {
        if radius < 0 {
            Err(())
        } else {
            self.commands.push(PathCommand::ArcTo { cx, cy, x, y, radius });
            Ok(())
        }
    }

    fn bezier_curve_to(&mut self, c1x: i64, c1y: i64, c2x: i64, c2y: i64, x: i64, y: i64) {
        self.commands.push(PathCommand::BezierCurveTo { c1x, c1y, c2x, c2y, x, y });
    }

    fn ellipse(
        &mut self,
        cx: i64,
        cy: i64,
        rx: i64,
        ry: i64,
        rotation: i64,
        start: i64,
        end: i64,
    ) -> (r: Result<(), ()>) {
        if rx < 0 || ry < 0 {
            Err(())
        } else {
            self.commands.push(PathCommand::Ellipse { cx, cy, rx, ry, rotation, start, end });
            Ok(())
        }
    }

    fn close_path(&mut self) {
        self.commands.push(PathCommand::ClosePath);
    }

    fn set_fill_style(&mut self, style: u32) {
        self.commands.push(PathCommand::SetFillStyle(style));
    }

    fn fill(&mut self) {
        self.commands.push(PathCommand::Fill);
    }

    fn stroke(&mut self) {
        self.commands.push(PathCommand::Stroke);
    }
}

} // verus!

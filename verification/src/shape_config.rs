//! Resolved style configuration carried by a shape: the render routine only
//! passes these values through to the drawing surface.

use vstd::prelude::*;

verus! {

/// How the ends of stroked lines are drawn.
#[derive(Clone, Copy, Debug, PartialEq, Eq, Structural)]
pub enum LineCap {
    Butt,
    Round,
    Square,
}

impl Default for LineCap {
    fn default() -> (c: Self)
        ensures
            c == LineCap::Butt,
    {
        LineCap::Butt
    }
}

/// Already-resolved drawing style: stroke color, line width, line cap and
/// fill color. Colors are packed RGBA values.
#[derive(Clone, Copy, Debug, PartialEq, Eq, Structural)]
pub struct ShapeConfig {
    pub style: u32,
    pub width: u32,
    pub cap: LineCap,
    pub fill: u32,
}

impl Default for ShapeConfig {
    /// Opaque black, hairline width, butt caps, opaque black fill.
    fn default() -> (c: Self)
        ensures
            c.style == 0x0000_00FF,
            c.width == 1,
            c.cap == LineCap::Butt,
            c.fill == 0x0000_00FF,
    {
        ShapeConfig { style: 0x0000_00FF, width: 1, cap: LineCap::Butt, fill: 0x0000_00FF }
    }
}

/// Opaque metadata tagging how a shape takes part in intersection
/// bookkeeping; read by the builder and collision collaborators, never by
/// rendering.
#[derive(Clone, Copy, Debug, PartialEq, Eq, Structural)]
pub enum IntersectType {
    Unspecified,
    Solid,
    Passable,
}

impl Default for IntersectType {
    fn default() -> (t: Self)
        ensures
            t == IntersectType::Unspecified,
    {
        IntersectType::Unspecified
    }
}

} // verus!

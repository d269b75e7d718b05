//! Paint commands: the plain-value output of the paint phase.
//!
//! The widget does not draw; it hands the host an ordered list of commands.
//! Executing them in order, first to last, reproduces the frame: later
//! commands paint over earlier ones.

use vstd::prelude::*;
use crate::color::Hsla;
use crate::geometry::{Bounds, Point, Px};
use crate::shaping::ShapedLine;

verus! {

/// Whether a quad is painted as a filled rectangle or as its outline only.
#[derive(Clone, Copy, PartialEq, Eq, Structural, Debug)]
pub enum QuadKind {
    Fill,
    Outline,
}

/// One rectangle to paint.
#[derive(Clone, Copy, PartialEq, Eq, Structural, Debug)]
pub struct PaintQuad {
    pub bounds: Bounds,
    pub color: Hsla,
    pub kind: QuadKind,
}

/// A filled quad.
pub fn fill(bounds: Bounds, color: Hsla) -> (r: PaintQuad)
    ensures
        r == (PaintQuad { bounds, color, kind: QuadKind::Fill }),
{
    PaintQuad { bounds, color, kind: QuadKind::Fill }
}

/// A stroked, unfilled quad.
pub fn outline(bounds: Bounds, color: Hsla) -> (r: PaintQuad)
    ensures
        r == (PaintQuad { bounds, color, kind: QuadKind::Outline }),
{
    PaintQuad { bounds, color, kind: QuadKind::Outline }
}

/// One drawing instruction for the host.
#[derive(Clone, PartialEq, Eq, Debug)]
pub enum PaintCommand {
    /// Paint a rectangle, filled or stroked.
    Quad(PaintQuad),
    /// Paint a shaped line of glyphs with its baseline grid starting at
    /// `origin`, laid out for the given line height.
    Glyphs { origin: Point, line: ShapedLine, line_height: Px },
    /// Paint a small label chip: `text` in `color` on a `background` chip
    /// anchored at `origin`.
    Label { origin: Point, background: Hsla, color: Hsla, text: String },
}

} // verus!

//! Plain-value model of what the text-shaping collaborator returns.
//!
//! Shaping itself — turning a string plus font and size into positioned
//! glyphs — happens in the host's text system.  The widget only consumes the
//! result, so this module holds the shape of that result: one glyph per
//! character, each with the horizontal advance the shaper measured for it.

use vstd::prelude::*;
use crate::geometry::{Px, PX_LIMIT};

verus! {

/// One shaped glyph: the character it renders and its horizontal advance.
#[derive(Clone, Copy, PartialEq, Eq, Structural, Debug)]
pub struct ShapedGlyph {
    pub ch: char,
    /// Horizontal advance of this glyph, in pixels.
    pub advance: Px,
}

impl ShapedGlyph {
    /// Advances are nonnegative, bounded lengths.
    pub open spec fn wf(self) -> bool {
        0 <= self.advance <= PX_LIMIT
    }
}

/// A shaped line: the glyphs of one run of text, in order.
#[derive(Clone, PartialEq, Eq, Debug)]
pub struct ShapedLine {
    pub glyphs: Vec<ShapedGlyph>,
}

impl ShapedLine {
    pub open spec fn wf(self) -> bool {
        forall|i: int| 0 <= i < self.glyphs@.len() ==> (#[trigger] self.glyphs@[i]).wf()
    }

    /// A line with no glyphs, the shape of an empty string.
    pub fn empty() -> (r: ShapedLine)
        ensures
            r.glyphs@ == Seq::<ShapedGlyph>::empty(),
            r.wf(),
    {
        ShapedLine { glyphs: Vec::new() }
    }
}

/// What the widget asks the shaper to shape: a single run covering the whole
/// single-line value.
#[derive(Clone, Copy, PartialEq, Eq, Structural, Debug)]
pub struct TextRunDescriptor {
    /// Length of the run, in characters.
    pub len: usize,
}

} // verus!

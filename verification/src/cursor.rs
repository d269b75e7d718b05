//! Cursor geometry and painting: the paintable rectangle for each cursor
//! shape, the optional glyph preview inside a block cursor, and the optional
//! name tag shown next to a collaborator's cursor.

use vstd::prelude::*;
use crate::color::Hsla;
use crate::geometry::{Bounds, Point, Px, PX_LIMIT, Size};
use crate::scene::{PaintCommand, PaintQuad, QuadKind, fill, outline};
use crate::shaping::ShapedLine;

verus! {

/// The shape of a text-insertion cursor.
#[derive(Clone, Copy, PartialEq, Eq, Structural, Debug)]
pub enum CursorShape {
    /// A vertical bar.
    Bar,
    /// A block that surrounds the following character.
    Block,
    /// An underline that runs along the following character.
    Underscore,
    /// A box drawn around the following character.
    Hollow,
}

impl Default for CursorShape {
    /// The vertical bar.
    fn default() -> (r: CursorShape)
        ensures
            r == CursorShape::Bar,
    {
        CursorShape::Bar
    }
}

/// The label identifying a cursor's owner in collaborative display.
#[derive(Clone, PartialEq, Eq, Debug)]
pub struct CursorName {
    pub string: String,
    pub color: Hsla,
    /// Whether the cursor sits on the top row, where a label above it would
    /// be clipped off-screen; such a label goes to the cursor's right.
    pub is_top_row: bool,
}

/// The per-frame layout of one cursor: where and how to paint it.
///
/// Recomputed on every prepaint from the current input state and style;
/// never kept across frames.
pub struct CursorLayout {
    /// Cursor position, relative to the element's content origin.
    pub origin: Point,
    /// Width of the character cell the cursor covers.
    pub block_width: Px,
    /// Height of the cursor's line.
    pub line_height: Px,
    pub color: Hsla,
    pub shape: CursorShape,
    /// The shaped glyph under a block cursor, painted over the fill.
    pub block_text: Option<ShapedLine>,
    /// The owner label, once laid out.
    pub cursor_name: Option<CursorName>,
    /// Where the owner label was laid out, in the same coordinates the
    /// layout call received.
    pub name_origin: Option<Point>,
}

impl CursorLayout {
    pub open spec fn wf(self) -> bool {
        &&& self.origin.bounded()
        &&& 0 <= self.block_width <= PX_LIMIT
        &&& 0 <= self.line_height <= PX_LIMIT
        &&& match self.block_text {
            Some(line) => line.wf(),
            None => true,
        }
    }

    /// The paintable rectangle of this cursor, shifted by the element's
    /// content `origin`:
    ///
    /// * `Bar`: two pixels wide, one line high, anchored at the cursor
    ///   position;
    /// * `Block` and `Hollow`: one cell wide, one line high, anchored at the
    ///   cursor position;
    /// * `Underscore`: one cell wide, two pixels high, anchored two pixels
    ///   above the line's bottom edge.
    pub open spec fn spec_bounding_rect(self, origin: Point) -> Bounds {
        match self.shape {
            CursorShape::Bar => Bounds {
                origin: Point {
                    x: (self.origin.x + origin.x) as i64,
                    y: (self.origin.y + origin.y) as i64,
                },
                size: Size { width: 2, height: self.line_height },
            },
            CursorShape::Block | CursorShape::Hollow => Bounds {
                origin: Point {
                    x: (self.origin.x + origin.x) as i64,
                    y: (self.origin.y + origin.y) as i64,
                },
                size: Size { width: self.block_width, height: self.line_height },
            },
            CursorShape::Underscore => Bounds {
                origin: Point {
                    x: (self.origin.x + origin.x) as i64,
                    y: (self.origin.y + origin.y + self.line_height - 2) as i64,
                },
                size: Size { width: self.block_width, height: 2 },
            },
        }
    }

    /// Where the owner label is anchored: at the cursor rectangle's right on
    /// the top row, else above its top-left corner by half the label text
    /// size.
    pub open spec fn spec_name_origin(self, origin: Point, is_top_row: bool) -> Point {
        let rect = self.spec_bounding_rect(origin);
        let text_size = self.line_height * 2 / 3;
        if is_top_row {
            Point { x: (rect.origin.x + rect.size.width - 1) as i64, y: rect.origin.y }
        } else {
            Point { x: rect.origin.x, y: (rect.origin.y - text_size / 2 - 1) as i64 }
        }
    }

    /// The commands that paint this cursor, in order: the owner label chip,
    /// then the cursor body (stroked for `Hollow`, filled otherwise), then
    /// the glyph preview over a block cursor's fill.
    pub open spec fn spec_paint(self, origin: Point) -> Seq<PaintCommand> {
        let label = match self.cursor_name {
            Some(name) => match self.name_origin {
                Some(p) => seq![
                    PaintCommand::Label {
                        origin: p,
                        background: self.color,
                        color: name.color,
                        text: name.string,
                    },
                ],
                None => Seq::<PaintCommand>::empty(),
            },
            None => Seq::<PaintCommand>::empty(),
        };
        let body = if self.shape == CursorShape::Hollow {
            PaintCommand::Quad(
                PaintQuad {
                    bounds: self.spec_bounding_rect(origin),
                    color: self.color,
                    kind: QuadKind::Outline,
                },
            )
        } else {
            PaintCommand::Quad(
                PaintQuad {
                    bounds: self.spec_bounding_rect(origin),
                    color: self.color,
                    kind: QuadKind::Fill,
                },
            )
        };
        let glyphs = match self.block_text {
            Some(line) => seq![
                PaintCommand::Glyphs {
                    origin: Point {
                        x: (self.origin.x + origin.x) as i64,
                        y: (self.origin.y + origin.y) as i64,
                    },
                    line,
                    line_height: self.line_height,
                },
            ],
            None => Seq::<PaintCommand>::empty(),
        };
        label + seq![body] + glyphs
    }

    /// A cursor layout with no owner label.
    pub fn new(
        origin: Point,
        block_width: Px,
        line_height: Px,
        color: Hsla,
        shape: CursorShape,
        block_text: Option<ShapedLine>,
    ) -> (r: CursorLayout)
        ensures
            r == (CursorLayout {
                origin,
                block_width,
                line_height,
                color,
                shape,
                block_text,
                cursor_name: None,
                name_origin: None,
            }),
    {
        CursorLayout {
            origin,
            block_width,
            line_height,
            color,
            shape,
            block_text,
            cursor_name: None,
            name_origin: None,
        }
    }

    /// Computes [`Self::spec_bounding_rect`]: the paintable rectangle,
    /// shifted by the element's content `origin`.
    pub fn bounding_rect(&self, origin: Point) -> (r: Bounds)
        requires
            self.wf(),
            origin.bounded(),
        ensures
            r == self.spec_bounding_rect(origin),
            self.shape == CursorShape::Bar ==> r.size.width == 2 && r.size.height
                == self.line_height,
            self.shape == CursorShape::Underscore ==> r.origin.y == self.origin.y + origin.y
                + self.line_height - 2 && r.size.height == 2,
    {
        let position = self.origin.translate(origin);
        match self.shape {
            CursorShape::Bar => Bounds {
                origin: position,
                size: Size { width: 2, height: self.line_height },
            },
            CursorShape::Block | CursorShape::Hollow => Bounds {
                origin: position,
                size: Size { width: self.block_width, height: self.line_height },
            },
            CursorShape::Underscore => Bounds {
                origin: Point { x: position.x, y: position.y + self.line_height - 2 },
                size: Size { width: self.block_width, height: 2 },
            },
        }
    }

    /// Lays out the owner label, when there is one, next to the cursor: at
    /// its right on the top row, else above it.
    pub fn layout(&mut self, origin: Point, cursor_name: Option<CursorName>)
        requires
            old(self).wf(),
            origin.bounded(),
        ensures
            final(self).wf(),
            cursor_name is None ==> *final(self) == *old(self),
            cursor_name matches Some(name) ==> ({
                &&& final(self).name_origin == Some(
                    old(self).spec_name_origin(origin, name.is_top_row),
                )
                &&& final(self).cursor_name == Some(name)
                &&& *final(self) == (CursorLayout {
                    cursor_name: final(self).cursor_name,
                    name_origin: final(self).name_origin,
                    ..*old(self)
                })
            }),
    {
        if let Some(name) = cursor_name {
            let rect = self.bounding_rect(origin);
            let text_size = self.line_height * 2 / 3;
            let name_origin = if name.is_top_row {
                Point { x: rect.origin.x + rect.size.width - 1, y: rect.origin.y }
            } else {
                Point { x: rect.origin.x, y: rect.origin.y - text_size / 2 - 1 }
            };
            self.name_origin = Some(name_origin);
            self.cursor_name = Some(name);
        }
    }

    /// Produces [`Self::spec_paint`]: the commands that paint this cursor.
    pub fn paint(self, origin: Point) -> (r: Vec<PaintCommand>)
        requires
            self.wf(),
            origin.bounded(),
        ensures
            r@ == self.spec_paint(origin),
    {
        let mut commands: Vec<PaintCommand> = Vec::new();
        let rect = self.bounding_rect(origin);
        let position = self.origin.translate(origin);
        if let Some(name) = self.cursor_name {
            if let Some(p) = self.name_origin {
                commands.push(
                    PaintCommand::Label {
                        origin: p,
                        background: self.color,
                        color: name.color,
                        text: name.string,
                    },
                );
            }
        }
        if self.shape == CursorShape::Hollow {
            commands.push(PaintCommand::Quad(outline(rect, self.color)));
        } else {
            commands.push(PaintCommand::Quad(fill(rect, self.color)));
        }
        if let Some(line) = self.block_text {
            commands.push(
                PaintCommand::Glyphs { origin: position, line, line_height: self.line_height },
            );
        }
        assert(commands@ =~= self.spec_paint(origin));
        commands
    }

    /// This cursor's shape.
    pub fn shape(&self) -> (r: CursorShape)
        ensures
            r == self.shape,
    {
        self.shape
    }
}

} // verus!

//! Integer pixel geometry: points, sizes, rectangles, edge insets.
//!
//! All lengths and coordinates are whole device pixels.  Every value the
//! layout engine produces keeps its magnitude within [`PX_LIMIT`], so that a
//! sum of a handful of coordinates can never overflow `i64`.

use vstd::prelude::*;

verus! {

/// A pixel length or coordinate, in whole device pixels.
pub type Px = i64;

/// Magnitude bound on every coordinate and length the layout engine works
/// with.  Sums of a handful of such values stay well inside `i64`, and a
/// single bounded value fits `usize` on every supported target.
pub const PX_LIMIT: Px = 0x4000_0000;

/// Whether a single coordinate or length is within the magnitude bound.
pub open spec fn px_bounded(v: Px) -> bool {
    -PX_LIMIT <= v <= PX_LIMIT
}

/// A position, relative to some origin.
#[derive(Clone, Copy, PartialEq, Eq, Structural, Debug)]
pub struct Point {
    pub x: Px,
    pub y: Px,
}

/// An extent in both axes.
#[derive(Clone, Copy, PartialEq, Eq, Structural, Debug)]
pub struct Size {
    pub width: Px,
    pub height: Px,
}

/// An axis-aligned rectangle.
#[derive(Clone, Copy, PartialEq, Eq, Structural, Debug)]
pub struct Bounds {
    pub origin: Point,
    pub size: Size,
}

/// Insets for each of the four edges of a rectangle.
#[derive(Clone, Copy, PartialEq, Eq, Structural, Debug)]
pub struct Edges {
    pub top: Px,
    pub bottom: Px,
    pub left: Px,
    pub right: Px,
}

impl Point {
    pub open spec fn bounded(self) -> bool {
        px_bounded(self.x) && px_bounded(self.y)
    }

    pub fn new(x: Px, y: Px) -> (r: Point)
        ensures
            r == (Point { x, y }),
    {
        Point { x, y }
    }

    /// The zero point.
    pub fn zero() -> (r: Point)
        ensures
            r == (Point { x: 0, y: 0 }),
    {
        Point { x: 0, y: 0 }
    }

    /// Componentwise translation by another point.
    pub fn translate(self, other: Point) -> (r: Point)
        requires
            self.bounded(),
            other.bounded(),
        ensures
            r.x == self.x + other.x,
            r.y == self.y + other.y,
    {
        Point { x: self.x + other.x, y: self.y + other.y }
    }
}

impl Size {
    /// Extents are never negative.
    pub open spec fn bounded(self) -> bool {
        0 <= self.width <= PX_LIMIT && 0 <= self.height <= PX_LIMIT
    }

    pub fn new(width: Px, height: Px) -> (r: Size)
        ensures
            r == (Size { width, height }),
    {
        Size { width, height }
    }
}

impl Bounds {
    pub open spec fn bounded(self) -> bool {
        self.origin.bounded() && self.size.bounded()
    }

    pub fn new(origin: Point, size: Size) -> (r: Bounds)
        ensures
            r == (Bounds { origin, size }),
    {
        Bounds { origin, size }
    }

    /// The left edge's x coordinate.
    pub fn left(&self) -> (r: Px)
        ensures
            r == self.origin.x,
    {
        self.origin.x
    }

    /// The top edge's y coordinate.
    pub fn top(&self) -> (r: Px)
        ensures
            r == self.origin.y,
    {
        self.origin.y
    }

    /// The right edge's x coordinate.
    pub fn right(&self) -> (r: Px)
        requires
            self.bounded(),
        ensures
            r == self.origin.x + self.size.width,
    {
        self.origin.x + self.size.width
    }

    /// The bottom edge's y coordinate.
    pub fn bottom(&self) -> (r: Px)
        requires
            self.bounded(),
        ensures
            r == self.origin.y + self.size.height,
    {
        self.origin.y + self.size.height
    }

    /// The center point, rounding towards the origin.
    pub fn center(&self) -> (r: Point)
        requires
            self.bounded(),
        ensures
            r.x == self.origin.x + self.size.width / 2,
            r.y == self.origin.y + self.size.height / 2,
    {
        Point { x: self.origin.x + self.size.width / 2, y: self.origin.y + self.size.height / 2 }
    }
}

impl Edges {
    pub open spec fn bounded(self) -> bool {
        px_bounded(self.top) && px_bounded(self.bottom) && px_bounded(self.left) && px_bounded(
            self.right,
        )
    }

    /// The same inset on all four edges.
    pub fn all(value: Px) -> (r: Edges)
        ensures
            r == (Edges { top: value, bottom: value, left: value, right: value }),
    {
        Edges { top: value, bottom: value, left: value, right: value }
    }
}

/// The pixel offset of the cell at `index` in a row of cells that are each
/// `step` wide, saturated at [`PX_LIMIT`] so that any cell offset is a valid
/// coordinate.
pub open spec fn spec_cell_offset(index: nat, step: int) -> int {
    if index * step <= PX_LIMIT {
        index * step
    } else {
        PX_LIMIT as int
    }
}

/// Computes [`spec_cell_offset`]: `index * step`, saturated at [`PX_LIMIT`].
pub fn cell_offset(index: usize, step: Px) -> (r: Px)
    requires
        0 <= step <= PX_LIMIT,
    ensures
        r == spec_cell_offset(index as nat, step as int),
        0 <= r <= PX_LIMIT,
{
    if step == 0 {
        assert(index as nat * step as int == 0) by (nonlinear_arith)
            requires
                step == 0,
        ;
        0
    } else if index as u64 <= (PX_LIMIT / step) as u64 {
        assert(index as int * step as int <= (PX_LIMIT as int / step as int) * step as int
            <= PX_LIMIT as int) by (nonlinear_arith)
            requires
                0 < step <= PX_LIMIT,
                index as int <= PX_LIMIT as int / step as int,
        ;
        assert(0 <= index as int * step as int) by (nonlinear_arith)
            requires
                0 < step,
        ;
        (index as i64) * step
    } else {
        assert(index as int * step as int > PX_LIMIT as int) by (nonlinear_arith)
            requires
                0 < step <= PX_LIMIT,
                index as int > PX_LIMIT as int / step as int,
        ;
        PX_LIMIT
    }
}

/// A window rectangle of the given size, centered in `display`.
///
/// The computed origin places the window's center on the display's center,
/// rounding towards the display origin.
pub fn centered_bounds(display: &Bounds, width: Px, height: Px) -> (r: Bounds)
    requires
        display.bounded(),
        0 <= width <= PX_LIMIT,
        0 <= height <= PX_LIMIT,
    ensures
        r.origin.x == display.origin.x + display.size.width / 2 - width / 2,
        r.origin.y == display.origin.y + display.size.height / 2 - height / 2,
        r.size == (Size { width, height }),
{
    let center = display.center();
    let x = center.x - width / 2;
    let y = center.y - height / 2;
    Bounds { origin: Point { x, y }, size: Size { width, height } }
}

} // verus!

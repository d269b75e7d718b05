//! The input element: the widget's side of the host's three-phase layout
//! protocol.
//!
//! * **Measure** claims the full size the parent offers; the widget does not
//!   self-size from content.
//! * **Prepaint** turns the final bounds, the current input state, the style
//!   registry and the shaping collaborator's answer into a per-frame
//!   [`LayoutState`]: resolved style, cell metrics, glyph runs,
//!   selection-highlight rectangles and the cursor layout.
//! * **Paint** turns that bundle into an ordered list of paint commands and
//!   installs the frame's composition handler.

use vstd::prelude::*;
use crate::color::{Hsla, default_selection};
use crate::cursor::{CursorLayout, CursorShape};
use crate::geometry::{Bounds, Point, Px, PX_LIMIT, Size, cell_offset, spec_cell_offset};
use crate::handler::TextInputHandler;
use crate::input_state::InputState;
use crate::scene::{PaintCommand, PaintQuad, QuadKind, fill};
use crate::shaping::{ShapedGlyph, ShapedLine, TextRunDescriptor};
use crate::style::{InputStyle, Styles};

verus! {

/// The cell metrics of one frame: the advance of a representative glyph,
/// the line height, and the size the element was allocated.
#[derive(Clone, Copy, PartialEq, Eq, Structural, Debug)]
pub struct InputSize {
    pub cell_width: Px,
    pub line_height: Px,
    pub size: Size,
}

impl InputSize {
    /// Cell metrics are positive whenever they are used to lay text out.
    pub open spec fn wf(self) -> bool {
        &&& 0 < self.cell_width <= PX_LIMIT
        &&& 0 < self.line_height <= PX_LIMIT
        &&& self.size.bounded()
    }

    pub fn new(line_height: Px, cell_width: Px, size: Size) -> (r: InputSize)
        ensures
            r == (InputSize { cell_width, line_height, size }),
    {
        InputSize { cell_width, line_height, size }
    }

    /// How many whole lines fit in the allocated height.
    pub fn num_lines(&self) -> (r: usize)
        requires
            self.wf(),
        ensures
            r == self.size.height / self.line_height,
    {
        (self.size.height / self.line_height) as usize
    }

    /// How many whole columns fit in the allocated width.
    pub fn num_columns(&self) -> (r: usize)
        requires
            self.wf(),
        ensures
            r == self.size.width / self.cell_width,
    {
        (self.size.width / self.cell_width) as usize
    }

    pub fn height(&self) -> (r: Px)
        ensures
            r == self.size.height,
    {
        self.size.height
    }

    pub fn width(&self) -> (r: Px)
        ensures
            r == self.size.width,
    {
        self.size.width
    }

    pub fn cell_width(&self) -> (r: Px)
        ensures
            r == self.cell_width,
    {
        self.cell_width
    }

    pub fn line_height(&self) -> (r: Px)
        ensures
            r == self.line_height,
    {
        self.line_height
    }
}

impl Default for InputSize {
    /// Placeholder metrics for debugging before any real measurement:
    /// five-pixel cells in a 160 by 24 slot.
    fn default() -> (r: InputSize)
        ensures
            r == (InputSize {
                cell_width: 5,
                line_height: 5,
                size: Size { width: 160, height: 24 },
            }),
            r.wf(),
    {
        InputSize::new(5, 5, Size { width: 160, height: 24 })
    }
}

/// Why a prepaint failed.  Either way the frame is not painted and the
/// failure is surfaced to the host rather than rendering a blank widget.
#[derive(Clone, Copy, PartialEq, Eq, Structural, Debug)]
pub enum LayoutError {
    /// The shaping collaborator gave no answer for a non-empty value.
    ShapingUnavailable,
    /// The shaping collaborator's answer does not cover the value one glyph
    /// per character.
    IncoherentShaping,
}

/// One positioned glyph run, in cell-grid coordinates.
pub struct LayoutCell {
    /// Column of the run's first glyph.
    pub column: usize,
    /// Row of the run.
    pub row: usize,
    /// The run's shaped glyphs.
    pub text: ShapedLine,
}

impl LayoutCell {
    pub open spec fn wf(self) -> bool {
        self.text.wf()
    }

    /// The command that paints this run: its glyphs at the run's grid
    /// position scaled by the frame's cell metrics, offset by the element's
    /// content origin.
    pub open spec fn spec_paint(self, origin: Point, dims: InputSize) -> PaintCommand {
        PaintCommand::Glyphs {
            origin: Point {
                x: (origin.x + spec_cell_offset(self.column as nat, dims.cell_width as int)) as i64,
                y: (origin.y + spec_cell_offset(self.row as nat, dims.line_height as int)) as i64,
            },
            line: self.text,
            line_height: dims.line_height,
        }
    }

    pub fn new(column: usize, row: usize, text: ShapedLine) -> (r: LayoutCell)
        ensures
            r == (LayoutCell { column, row, text }),
    {
        LayoutCell { column, row, text }
    }

    /// Produces [`Self::spec_paint`].
    pub fn paint(self, origin: Point, dims: &InputSize) -> (r: PaintCommand)
        requires
            origin.bounded(),
            dims.wf(),
        ensures
            r == self.spec_paint(origin, *dims),
    {
        let x = origin.x + cell_offset(self.column, dims.cell_width);
        let y = origin.y + cell_offset(self.row, dims.line_height);
        PaintCommand::Glyphs {
            origin: Point { x, y },
            line: self.text,
            line_height: dims.line_height,
        }
    }
}

/// One highlight rectangle, a run of cells in grid coordinates.
#[derive(Clone, Copy, PartialEq, Eq, Structural, Debug)]
pub struct LayoutRect {
    /// Column of the rectangle's first cell.
    pub column: usize,
    /// Row of the rectangle.
    pub row: usize,
    /// How many cells the rectangle covers.
    pub num_of_cells: usize,
    pub color: Hsla,
}

impl LayoutRect {
    /// The command that paints this rectangle: a fill at its grid position
    /// scaled by the frame's cell metrics, offset by the element's content
    /// origin.
    pub open spec fn spec_paint(self, origin: Point, dims: InputSize) -> PaintCommand {
        PaintCommand::Quad(
            PaintQuad {
                bounds: Bounds {
                    origin: Point {
                        x: (origin.x + spec_cell_offset(
                            self.column as nat,
                            dims.cell_width as int,
                        )) as i64,
                        y: (origin.y + spec_cell_offset(
                            self.row as nat,
                            dims.line_height as int,
                        )) as i64,
                    },
                    size: Size {
                        width: spec_cell_offset(self.num_of_cells as nat, dims.cell_width as int)
                            as i64,
                        height: dims.line_height,
                    },
                },
                color: self.color,
                kind: QuadKind::Fill,
            },
        )
    }

    pub fn new(column: usize, row: usize, num_of_cells: usize, color: Hsla) -> (r: LayoutRect)
        ensures
            r == (LayoutRect { column, row, num_of_cells, color }),
    {
        LayoutRect { column, row, num_of_cells, color }
    }

    /// The same rectangle, one cell longer.
    pub fn extend(&self) -> (r: LayoutRect)
        requires
            self.num_of_cells < usize::MAX,
        ensures
            r == (LayoutRect { num_of_cells: (self.num_of_cells + 1) as usize, ..*self }),
    {
        LayoutRect {
            column: self.column,
            row: self.row,
            num_of_cells: self.num_of_cells + 1,
            color: self.color,
        }
    }

    /// Produces [`Self::spec_paint`].
    pub fn paint(&self, origin: Point, dims: &InputSize) -> (r: PaintCommand)
        requires
            origin.bounded(),
            dims.wf(),
        ensures
            r == self.spec_paint(origin, *dims),
    {
        let x = origin.x + cell_offset(self.column, dims.cell_width);
        let y = origin.y + cell_offset(self.row, dims.line_height);
        let width = cell_offset(self.num_of_cells, dims.cell_width);
        PaintCommand::Quad(
            PaintQuad {
                bounds: Bounds {
                    origin: Point { x, y },
                    size: Size { width, height: dims.line_height },
                },
                color: self.color,
                kind: QuadKind::Fill,
            },
        )
    }
}

/// Everything prepaint computes and paint consumes: the per-frame bundle.
pub struct LayoutState {
    /// The element's allocated rectangle, also its hit area.
    pub bounds: Bounds,
    /// The positioned glyph runs of the value.
    pub cells: Vec<LayoutCell>,
    /// The selection-highlight rectangles.
    pub rects: Vec<LayoutRect>,
    /// The cursor layout.  Computed even when the cursor is not painted:
    /// its rectangle answers the composition system's bounds query.
    pub cursor: Option<CursorLayout>,
    pub background_color: Hsla,
    /// The frame's cell metrics.
    pub dimensions: InputSize,
}

impl LayoutState {
    pub open spec fn wf(self) -> bool {
        &&& self.bounds.bounded()
        &&& self.dimensions.wf()
        &&& forall|i: int| 0 <= i < self.cells@.len() ==> (#[trigger] self.cells@[i]).wf()
        &&& match self.cursor {
            Some(c) => c.wf(),
            None => true,
        }
    }
}

/// The platform pointer style to show over an area.
#[derive(Clone, Copy, PartialEq, Eq, Structural, Debug)]
pub enum PointerStyle {
    Arrow,
    /// The text-selection beam.
    IBeam,
}

/// The pointer affordance the paint phase requests for the element's hit
/// area.
#[derive(Clone, Copy, PartialEq, Eq, Structural, Debug)]
pub struct PointerHint {
    pub style: PointerStyle,
    pub bounds: Bounds,
}

/// What the paint phase hands the host: the frame's commands in paint
/// order, the pointer affordance, and the composition handler to install.
pub struct PaintFrame {
    pub commands: Vec<PaintCommand>,
    pub pointer: PointerHint,
    pub handler: TextInputHandler,
}

/// Whether the state has a non-empty selection.
pub open spec fn spec_has_selection(state: InputState) -> bool {
    match state.selection {
        Some((s, e)) => s < e,
        None => false,
    }
}

/// The cursor shape to paint: a hollow block when the widget is unfocused
/// but has a selection, else the configured shape.
pub open spec fn spec_chosen_shape(
    configured: CursorShape,
    focused: bool,
    has_selection: bool,
) -> CursorShape {
    if !focused && has_selection {
        CursorShape::Hollow
    } else {
        configured
    }
}

/// Computes [`spec_chosen_shape`].
pub fn cursor_shape_for(configured: CursorShape, focused: bool, has_selection: bool) -> (r:
    CursorShape)
    ensures
        r == spec_chosen_shape(configured, focused, has_selection),
{
    if !focused && has_selection {
        CursorShape::Hollow
    } else {
        configured
    }
}

/// The element that renders one input widget for a frame.
pub struct InputElement {
    /// Whether the widget owns focus this frame.
    pub focused: bool,
    /// The blink-timer flag: whether the cursor is shown this frame.
    pub cursor_visible: bool,
    /// The configured cursor shape for the focused widget.
    pub cursor_shape: CursorShape,
    /// The cursor rectangle of the last prepaint, or `None` before the
    /// first one; answers the composition system's bounds query.
    pub last_cursor_bounds: Option<Bounds>,
}

impl InputElement {
    /// A fresh element: unfocused, cursor shown, bar cursor, no layout yet.
    pub fn new() -> (r: InputElement)
        ensures
            r.focused == false,
            r.cursor_visible == true,
            r.cursor_shape == CursorShape::Bar,
            r.last_cursor_bounds is None,
    {
        InputElement {
            focused: false,
            cursor_visible: true,
            cursor_shape: CursorShape::Bar,
            last_cursor_bounds: None,
        }
    }

    /// The measure phase: the element claims the full size its parent
    /// offers; sizing is delegated to the parent container.
    pub fn request_layout(&self, offered: Size) -> (r: Size)
        ensures
            r == offered,
    {
        offered
    }

    /// The run descriptor to hand the shaping collaborator: one run
    /// covering the whole single-line value.
    pub fn run_descriptor(&self, state: &InputState) -> (r: TextRunDescriptor)
        ensures
            r.len == state.text@.len(),
    {
        TextRunDescriptor { len: state.text.as_str().unicode_len() }
    }

    /// The commands painting one frame from its prepaint bundle, in order:
    /// the background fill over the whole bounds, the selection-highlight
    /// rectangles, the glyph runs, and — only when the blink timer shows it
    /// and the widget is focused — the cursor.
    pub open spec fn spec_paint_commands(self, layout: LayoutState, bounds: Bounds) -> Seq<
        PaintCommand,
    > {
        let background = PaintCommand::Quad(
            PaintQuad { bounds, color: layout.background_color, kind: QuadKind::Fill },
        );
        let rects = layout.rects@.map_values(
            |rect: LayoutRect| rect.spec_paint(bounds.origin, layout.dimensions),
        );
        let cells = layout.cells@.map_values(
            |cell: LayoutCell| cell.spec_paint(bounds.origin, layout.dimensions),
        );
        let cursor = if self.cursor_visible && self.focused {
            match layout.cursor {
                Some(c) => c.spec_paint(bounds.origin),
                None => Seq::<PaintCommand>::empty(),
            }
        } else {
            Seq::<PaintCommand>::empty()
        };
        seq![background] + rects + cells + cursor
    }

    /// The prepaint phase.  Resolves the effective style, derives the cell
    /// metrics from the resolved text style and the representative glyph
    /// advance `cell_width`, positions the shaped value, computes the
    /// selection highlights and the cursor layout, and caches the cursor
    /// rectangle for the composition system's bounds query.
    ///
    /// `shaped` is the shaping collaborator's answer for the current value.
    /// A missing answer for an empty value degenerates to an empty run list;
    /// for a non-empty value it is a fatal [`LayoutError`] for this frame,
    /// as is an answer that does not cover the value one glyph per
    /// character.  On an error the element is unchanged and nothing is
    /// painted.
    pub fn prepaint(
        &mut self,
        bounds: Bounds,
        state: &InputState,
        styles: &Styles,
        hovered: bool,
        shaped: Option<ShapedLine>,
        cell_width: Px,
    ) -> (r: Result<LayoutState, LayoutError>)
        requires
            state.wf(),
            styles.wf(),
            bounds.bounded(),
            0 < cell_width <= PX_LIMIT,
            (shaped matches Some(line) ==> line.wf()),
        ensures
            r is Ok <==> (state.text@.len() == 0 || (shaped matches Some(line) && line.glyphs@.len()
                == state.text@.len())),
            state.text@.len() > 0 && shaped is None ==> r == Result::<
                LayoutState,
                LayoutError,
            >::Err(LayoutError::ShapingUnavailable),
            state.text@.len() > 0 && (shaped matches Some(line) && line.glyphs@.len()
                != state.text@.len()) ==> r == Result::<LayoutState, LayoutError>::Err(
                LayoutError::IncoherentShaping,
            ),
            r is Err ==> *final(self) == *old(self),
            r matches Ok(layout) ==> ({
                let style = InputStyle::spec_resolved(*styles, old(self).focused, hovered);
                let dims = InputSize {
                    cell_width,
                    line_height: style.text.line_height,
                    size: bounds.size,
                };
                &&& layout.wf()
                &&& layout.bounds == bounds
                &&& layout.background_color == style.background
                &&& layout.dimensions == dims
                &&& (state.text@.len() == 0 ==> layout.cells@.len() == 0)
                &&& (state.text@.len() > 0 ==> layout.cells@.len() == 1 && (shaped matches Some(
                    line,
                ) && layout.cells@[0] == (LayoutCell { column: 0, row: 0, text: line })))
                &&& (spec_has_selection(*state) ==> ({
                    let (s, e) = state.selection->0;
                    layout.rects@ =~= seq![
                        LayoutRect {
                            column: s,
                            row: 0,
                            num_of_cells: (e - s) as usize,
                            color: Hsla { h: 600, s: 670, l: 460, a: 500 },
                        },
                    ]
                }))
                &&& (!spec_has_selection(*state) ==> layout.rects@ =~= Seq::<LayoutRect>::empty())
                &&& (layout.cursor matches Some(c) && ({
                    let shape = spec_chosen_shape(
                        old(self).cursor_shape,
                        old(self).focused,
                        spec_has_selection(*state),
                    );
                    &&& c.origin == (Point {
                        x: spec_cell_offset(state.cursor as nat, cell_width as int) as i64,
                        y: 0,
                    })
                    &&& c.block_width == cell_width
                    &&& c.line_height == style.text.line_height
                    &&& c.color == style.text.color
                    &&& c.shape == shape
                    &&& (shape == CursorShape::Block && state.cursor < state.text@.len() ==> (
                    c.block_text matches Some(preview) && (shaped matches Some(line)
                        && preview.glyphs@ =~= seq![line.glyphs@[state.cursor as int]])))
                    &&& (!(shape == CursorShape::Block && state.cursor < state.text@.len())
                        ==> c.block_text is None)
                    &&& c.cursor_name is None
                    &&& c.name_origin is None
                    &&& final(self).last_cursor_bounds == Some(c.spec_bounding_rect(bounds.origin))
                }))
                &&& final(self).focused == old(self).focused
                &&& final(self).cursor_visible == old(self).cursor_visible
                &&& final(self).cursor_shape == old(self).cursor_shape
            }),
    {
        let text_len = state.text.as_str().unicode_len();
        if text_len > 0 {
            match &shaped {
                None => {
                    return Err(LayoutError::ShapingUnavailable);
                },
                Some(line) => {
                    if line.glyphs.len() != text_len {
                        return Err(LayoutError::IncoherentShaping);
                    }
                },
            }
        }
        let style = InputStyle::resolve(styles, self.focused, hovered);
        let dims = InputSize::new(style.text.line_height, cell_width, bounds.size);

        let has_selection = match state.selection {
            Some((s, e)) => s < e,
            None => false,
        };

        // Cursor layout: computed even when it will not be painted, because
        // its rectangle answers the composition system's bounds query.
        let shape = cursor_shape_for(self.cursor_shape, self.focused, has_selection);
        let block_text: Option<ShapedLine> = if shape == CursorShape::Block && state.cursor
            < text_len {
            match &shaped {
                Some(line) => {
                    let glyph = line.glyphs[state.cursor];
                    let mut glyphs: Vec<ShapedGlyph> = Vec::new();
                    glyphs.push(glyph);
                    Some(ShapedLine { glyphs })
                },
                None => None,
            }
        } else {
            None
        };
        let cursor_origin = Point { x: cell_offset(state.cursor, cell_width), y: 0 };
        let cursor = CursorLayout::new(
            cursor_origin,
            cell_width,
            style.text.line_height,
            style.text.color,
            shape,
            block_text,
        );
        self.last_cursor_bounds = Some(cursor.bounding_rect(bounds.origin));

        let mut cells: Vec<LayoutCell> = Vec::new();
        if text_len > 0 {
            match shaped {
                Some(line) => {
                    cells.push(LayoutCell::new(0, 0, line));
                },
                None => {},
            }
        }

        let mut rects: Vec<LayoutRect> = Vec::new();
        match state.selection {
            Some((s, e)) => {
                if s < e {
                    rects.push(LayoutRect::new(s, 0, e - s, default_selection()));
                }
            },
            None => {},
        }

        Ok(
            LayoutState {
                bounds,
                cells,
                rects,
                cursor: Some(cursor),
                background_color: style.background,
                dimensions: dims,
            },
        )
    }

    /// The paint phase.  Consumes the frame's prepaint bundle and produces
    /// [`Self::spec_paint_commands`] plus the frame's pointer affordance (a
    /// text beam over the hit area) and the composition handler, loaded
    /// with the bundle's cursor rectangle.
    pub fn paint(&self, layout: LayoutState, bounds: Bounds) -> (r: PaintFrame)
        requires
            layout.wf(),
            bounds.bounded(),
        ensures
            r.commands@ == self.spec_paint_commands(layout, bounds),
            r.pointer == (PointerHint { style: PointerStyle::IBeam, bounds }),
            r.handler.cursor_bounds == match layout.cursor {
                Some(c) => Some(c.spec_bounding_rect(bounds.origin)),
                None => None,
            },
    {
        let origin = bounds.origin;
        let dims = layout.dimensions;
        let ghost goal = self.spec_paint_commands(layout, bounds);

        let mut commands: Vec<PaintCommand> = Vec::new();
        commands.push(PaintCommand::Quad(fill(bounds, layout.background_color)));

        let ghost rect_cmds = layout.rects@.map_values(
            |rect: LayoutRect| rect.spec_paint(origin, dims),
        );
        let mut i: usize = 0;
        while i < layout.rects.len()
            invariant
                i <= layout.rects@.len(),
                origin.bounded(),
                dims.wf(),
                rect_cmds == layout.rects@.map_values(
                    |rect: LayoutRect| rect.spec_paint(origin, dims),
                ),
                forall|j: int| 0 <= j < layout.rects@.len() ==> (#[trigger] layout.rects@[j])
                    == layout.rects@[j],
                commands@ =~= seq![
                    PaintCommand::Quad(
                        PaintQuad { bounds, color: layout.background_color, kind: QuadKind::Fill },
                    ),
                ] + rect_cmds.subrange(0, i as int),
            decreases layout.rects@.len() - i,
        {
            commands.push(layout.rects[i].paint(origin, &dims));
            assert(rect_cmds.subrange(0, i + 1 as int) =~= rect_cmds.subrange(0, i as int).push(
                rect_cmds[i as int],
            ));
            i = i + 1;
        }
        assert(rect_cmds.subrange(0, layout.rects@.len() as int) =~= rect_cmds);

        let ghost cell_cmds = layout.cells@.map_values(
            |cell: LayoutCell| cell.spec_paint(origin, dims),
        );
        let ghost cells0 = layout.cells@;
        let mut cells = layout.cells;
        let ghost done: int = 0;
        while cells.len() > 0
            invariant
                0 <= done <= cells0.len(),
                cells@ =~= cells0.subrange(done, cells0.len() as int),
                origin.bounded(),
                dims.wf(),
                forall|j: int| 0 <= j < cells0.len() ==> (#[trigger] cells0[j]).wf(),
                cell_cmds == cells0.map_values(|cell: LayoutCell| cell.spec_paint(origin, dims)),
                commands@ =~= seq![
                    PaintCommand::Quad(
                        PaintQuad { bounds, color: layout.background_color, kind: QuadKind::Fill },
                    ),
                ] + rect_cmds + cell_cmds.subrange(0, done),
            decreases cells@.len(),
        {
            let cell = cells.remove(0);
            assert(cell == cells0[done]);
            commands.push(cell.paint(origin, &dims));
            assert(cell_cmds.subrange(0, done + 1) =~= cell_cmds.subrange(0, done).push(
                cell_cmds[done],
            ));
            proof {
                done = done + 1;
            }
        }
        assert(cell_cmds.subrange(0, cells0.len() as int) =~= cell_cmds);

        let handler_bounds: Option<Bounds> = match &layout.cursor {
            Some(c) => Some(c.bounding_rect(origin)),
            None => None,
        };

        if self.cursor_visible && self.focused {
            match layout.cursor {
                Some(c) => {
                    let mut cursor_cmds = c.paint(origin);
                    commands.append(&mut cursor_cmds);
                },
                None => {},
            }
        }
        assert(commands@ =~= goal);

        PaintFrame {
            commands,
            pointer: PointerHint { style: PointerStyle::IBeam, bounds },
            handler: TextInputHandler::with_cursor_bounds(handler_bounds),
        }
    }
}

} // verus!

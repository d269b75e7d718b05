use vitesse::color::{Hsla, default_selection};
use vitesse::cursor::CursorShape;
use vitesse::element::{
    InputElement, InputSize, LayoutError, PaintFrame, PointerStyle, cursor_shape_for,
};
use vitesse::geometry::{Bounds, Point, Size};
use vitesse::input_state::InputState;
use vitesse::scene::{PaintCommand, PaintQuad, QuadKind};
use vitesse::shaping::{ShapedGlyph, ShapedLine};
use vitesse::style::{Styles, TextStyle};

fn slot() -> Bounds {
    Bounds { origin: Point { x: 10, y: 20 }, size: Size { width: 160, height: 24 } }
}

fn shaped_for(text: &str, advance: i64) -> ShapedLine {
    let glyphs = text.chars().map(|ch| ShapedGlyph { ch, advance }).collect();
    ShapedLine { glyphs }
}

fn state_with(text: &str) -> InputState {
    let mut st = InputState::new();
    st.set_value(text).expect("single-line value");
    st
}

#[test]
fn measure_claims_the_offered_size() {
    let element = InputElement::new();
    for offered in [Size { width: 100, height: 30 }, Size { width: 0, height: 0 }] {
        assert_eq!(element.request_layout(offered), offered);
    }
}

#[test]
fn run_descriptor_covers_the_whole_value() {
    let element = InputElement::new();
    let st = state_with("héllo");
    assert_eq!(element.run_descriptor(&st).len, 5);
}

#[test]
fn fresh_element_has_no_cursor_bounds() {
    let element = InputElement::new();
    assert_eq!(element.last_cursor_bounds, None);
    assert!(!element.focused);
    assert!(element.cursor_visible);
    assert_eq!(element.cursor_shape, CursorShape::Bar);
}

#[test]
fn prepaint_of_empty_value_needs_no_shaper() {
    let mut element = InputElement::new();
    let st = InputState::new();
    let styles = Styles::init(TextStyle::default());
    let layout = element
        .prepaint(slot(), &st, &styles, false, None, 8)
        .expect("an empty value lays out without the shaper");
    assert!(layout.cells.is_empty());
    assert!(layout.rects.is_empty());
    assert!(layout.cursor.is_some());
}

#[test]
fn prepaint_without_shaping_fails_for_nonempty_value() {
    let mut element = InputElement::new();
    let st = state_with("hi");
    let styles = Styles::init(TextStyle::default());
    let r = element.prepaint(slot(), &st, &styles, false, None, 8);
    assert_eq!(r.err(), Some(LayoutError::ShapingUnavailable));
    // The failed frame leaves the element untouched.
    assert_eq!(element.last_cursor_bounds, None);
}

#[test]
fn prepaint_rejects_an_incoherent_shaping_answer() {
    let mut element = InputElement::new();
    let st = state_with("hi");
    let styles = Styles::init(TextStyle::default());
    let r = element.prepaint(slot(), &st, &styles, false, Some(shaped_for("h", 8)), 8);
    assert_eq!(r.err(), Some(LayoutError::IncoherentShaping));
}

#[test]
fn prepaint_positions_value_cursor_and_metrics() {
    let mut element = InputElement::new();
    element.focused = true;
    let st = state_with("hi");
    let styles = Styles::init(TextStyle::default());
    let line = shaped_for("hi", 8);
    let layout = element
        .prepaint(slot(), &st, &styles, false, Some(line.clone()), 8)
        .expect("a coherent shaping answer lays out");

    assert_eq!(layout.bounds, slot());
    assert_eq!(layout.background_color, Hsla { h: 0, s: 0, l: 1000, a: 1000 });
    let dims = layout.dimensions;
    assert_eq!(dims, InputSize::new(24, 8, slot().size));

    assert_eq!(layout.cells.len(), 1);
    assert_eq!(layout.cells[0].column, 0);
    assert_eq!(layout.cells[0].row, 0);
    assert_eq!(layout.cells[0].text, line);

    let cursor = layout.cursor.expect("the cursor is laid out every frame");
    // The caret sits after both characters: two cells of eight pixels.
    assert_eq!(cursor.origin, Point { x: 16, y: 0 });
    assert_eq!(cursor.block_width, 8);
    assert_eq!(cursor.line_height, 24);
    assert_eq!(cursor.shape, CursorShape::Bar);
    assert_eq!(cursor.block_text, None);

    // The cursor rectangle is cached, shifted into window coordinates.
    let cached = element.last_cursor_bounds.expect("prepaint caches the cursor rectangle");
    assert_eq!(cached.origin, Point { x: 26, y: 20 });
    assert_eq!(cached.size, Size { width: 2, height: 24 });
}

#[test]
fn prepaint_highlights_the_selection() {
    let mut element = InputElement::new();
    let mut st = state_with("hello");
    st.selection = Some((1, 4));
    st.cursor = 4;
    let styles = Styles::init(TextStyle::default());
    let layout = element
        .prepaint(slot(), &st, &styles, false, Some(shaped_for("hello", 8)), 8)
        .expect("lays out");
    assert_eq!(layout.rects.len(), 1);
    let rect = layout.rects[0];
    assert_eq!(rect.column, 1);
    assert_eq!(rect.row, 0);
    assert_eq!(rect.num_of_cells, 3);
    assert_eq!(rect.color, default_selection());
}

#[test]
fn unfocused_selection_shows_a_hollow_cursor() {
    assert_eq!(cursor_shape_for(CursorShape::Bar, false, true), CursorShape::Hollow);
    assert_eq!(cursor_shape_for(CursorShape::Bar, true, true), CursorShape::Bar);
    assert_eq!(cursor_shape_for(CursorShape::Block, false, false), CursorShape::Block);

    let mut element = InputElement::new();
    let mut st = state_with("hello");
    st.selection = Some((0, 5));
    let styles = Styles::init(TextStyle::default());
    let layout = element
        .prepaint(slot(), &st, &styles, false, Some(shaped_for("hello", 8)), 8)
        .expect("lays out");
    assert_eq!(layout.cursor.expect("cursor").shape, CursorShape::Hollow);
}

#[test]
fn focused_block_cursor_previews_the_glyph_under_it() {
    let mut element = InputElement::new();
    element.focused = true;
    element.cursor_shape = CursorShape::Block;
    let mut st = state_with("hello");
    st.cursor = 1;
    let styles = Styles::init(TextStyle::default());
    let layout = element
        .prepaint(slot(), &st, &styles, false, Some(shaped_for("hello", 8)), 8)
        .expect("lays out");
    let cursor = layout.cursor.expect("cursor");
    assert_eq!(cursor.shape, CursorShape::Block);
    let preview = cursor.block_text.expect("the glyph under a block cursor is previewed");
    assert_eq!(preview.glyphs.len(), 1);
    assert_eq!(preview.glyphs[0].ch, 'e');
}

#[test]
fn block_cursor_at_the_end_has_no_glyph_to_preview() {
    let mut element = InputElement::new();
    element.focused = true;
    element.cursor_shape = CursorShape::Block;
    let st = state_with("hi");
    let styles = Styles::init(TextStyle::default());
    let layout = element
        .prepaint(slot(), &st, &styles, false, Some(shaped_for("hi", 8)), 8)
        .expect("lays out");
    assert_eq!(layout.cursor.expect("cursor").block_text, None);
}

fn painted_frame(focused: bool, selection: Option<(usize, usize)>) -> PaintFrame {
    let mut element = InputElement::new();
    element.focused = focused;
    let mut st = state_with("hello");
    if let Some(sel) = selection {
        st.selection = Some(sel);
    }
    let styles = Styles::init(TextStyle::default());
    let layout = element
        .prepaint(slot(), &st, &styles, false, Some(shaped_for("hello", 8)), 8)
        .expect("lays out");
    element.paint(layout, slot())
}

#[test]
fn paint_starts_with_the_background_and_orders_layers() {
    let frame = painted_frame(true, Some((0, 2)));
    let commands = &frame.commands;
    // Background fill over the whole slot first.
    assert_eq!(
        commands[0],
        PaintCommand::Quad(PaintQuad {
            bounds: slot(),
            color: Hsla { h: 0, s: 0, l: 1000, a: 1000 },
            kind: QuadKind::Fill,
        })
    );
    // Then the selection highlight, the glyph run, and the cursor on top.
    assert_eq!(commands.len(), 4);
    assert!(matches!(commands[1], PaintCommand::Quad(PaintQuad { kind: QuadKind::Fill, .. })));
    assert!(matches!(commands[2], PaintCommand::Glyphs { .. }));
    assert!(matches!(commands[3], PaintCommand::Quad(_)));
    match commands[1] {
        PaintCommand::Quad(PaintQuad { bounds, color, .. }) => {
            assert_eq!(bounds.origin, Point { x: 10, y: 20 });
            assert_eq!(bounds.size, Size { width: 16, height: 24 });
            assert_eq!(color, default_selection());
        }
        _ => unreachable!(),
    }
}

#[test]
fn paint_skips_the_cursor_when_unfocused() {
    let frame = painted_frame(false, None);
    // Background plus the glyph run only: an unfocused widget paints no
    // cursor, though its rectangle is still cached for composition queries.
    assert_eq!(frame.commands.len(), 2);
    assert!(frame.handler.cursor_bounds.is_some());
}

#[test]
fn paint_requests_a_text_beam_over_the_hit_area() {
    let frame = painted_frame(true, None);
    assert_eq!(frame.pointer.style, PointerStyle::IBeam);
    assert_eq!(frame.pointer.bounds, slot());
}

#[test]
fn glyph_runs_paint_at_the_content_origin() {
    let frame = painted_frame(false, None);
    match &frame.commands[1] {
        PaintCommand::Glyphs { origin, line, line_height } => {
            assert_eq!(*origin, Point { x: 10, y: 20 });
            assert_eq!(line.glyphs.len(), 5);
            assert_eq!(*line_height, 24);
        }
        other => panic!("expected the value's glyph run, got {:?}", other),
    }
}

#[test]
fn input_size_counts_whole_cells() {
    let dims = InputSize::new(10, 7, Size { width: 100, height: 35 });
    assert_eq!(dims.num_columns(), 14);
    assert_eq!(dims.num_lines(), 3);
    assert_eq!(dims.width(), 100);
    assert_eq!(dims.height(), 35);
    assert_eq!(dims.cell_width(), 7);
    assert_eq!(dims.line_height(), 10);
}

#[test]
fn default_input_size_is_the_debug_slot() {
    let dims = InputSize::default();
    assert_eq!(dims, InputSize::new(5, 5, Size { width: 160, height: 24 }));
}

use vitesse::color::{Hsla, hsla};
use vitesse::cursor::{CursorLayout, CursorName, CursorShape};
use vitesse::geometry::{Point, Px};
use vitesse::scene::{PaintCommand, PaintQuad, QuadKind};
use vitesse::shaping::{ShapedGlyph, ShapedLine};

fn caret(shape: CursorShape, block_width: Px, line_height: Px) -> CursorLayout {
    CursorLayout::new(
        Point { x: 0, y: 0 },
        block_width,
        line_height,
        hsla(0, 0, 0, 1000),
        shape,
        None,
    )
}

fn zero() -> Point {
    Point { x: 0, y: 0 }
}

#[test]
fn bar_rect_is_two_pixels_wide_whatever_the_metrics() {
    for (bw, lh) in [(8, 16), (5, 5), (40, 100), (2, 2)] {
        let c = caret(CursorShape::Bar, bw, lh);
        let rect = c.bounding_rect(zero());
        assert_eq!(rect.size.width, 2);
        assert_eq!(rect.size.height, lh);
        assert_eq!(rect.origin, zero());
    }
}

#[test]
fn bar_rect_scenario() {
    let c = caret(CursorShape::Bar, 8, 16);
    let rect = c.bounding_rect(zero());
    assert_eq!(rect.origin.x, 0);
    assert_eq!(rect.origin.y, 0);
    assert_eq!(rect.size.width, 2);
    assert_eq!(rect.size.height, 16);
}

#[test]
fn underscore_rect_hugs_the_baseline() {
    for (bw, lh) in [(8, 16), (5, 24), (12, 40)] {
        let c = caret(CursorShape::Underscore, bw, lh);
        let rect = c.bounding_rect(zero());
        assert_eq!(rect.origin.y, lh - 2);
        assert_eq!(rect.size.height, 2);
        assert_eq!(rect.size.width, bw);
    }
}

#[test]
fn block_and_hollow_rects_cover_the_cell() {
    for shape in [CursorShape::Block, CursorShape::Hollow] {
        let c = caret(shape, 8, 16);
        let rect = c.bounding_rect(zero());
        assert_eq!(rect.size.width, 8);
        assert_eq!(rect.size.height, 16);
        assert_eq!(rect.origin, zero());
    }
}

#[test]
fn bounding_rect_shifts_by_the_content_origin() {
    let c = CursorLayout::new(
        Point { x: 24, y: 0 },
        8,
        16,
        hsla(0, 0, 0, 1000),
        CursorShape::Bar,
        None,
    );
    let rect = c.bounding_rect(Point { x: 100, y: 50 });
    assert_eq!(rect.origin, Point { x: 124, y: 50 });
}

#[test]
fn shape_reports_the_configured_shape() {
    let c = caret(CursorShape::Hollow, 8, 16);
    assert_eq!(c.shape(), CursorShape::Hollow);
}

#[test]
fn filled_shapes_paint_a_fill_quad() {
    for shape in [CursorShape::Bar, CursorShape::Block, CursorShape::Underscore] {
        let c = caret(shape, 8, 16);
        let rect = c.bounding_rect(zero());
        let color = c.color;
        let commands = c.paint(zero());
        assert_eq!(
            commands,
            vec![PaintCommand::Quad(PaintQuad { bounds: rect, color, kind: QuadKind::Fill })]
        );
    }
}

#[test]
fn hollow_cursor_paints_an_outline_only() {
    let c = caret(CursorShape::Hollow, 8, 16);
    let rect = c.bounding_rect(zero());
    let color = c.color;
    let commands = c.paint(zero());
    assert_eq!(
        commands,
        vec![PaintCommand::Quad(PaintQuad { bounds: rect, color, kind: QuadKind::Outline })]
    );
}

#[test]
fn block_cursor_paints_its_glyph_over_the_fill() {
    let line = ShapedLine { glyphs: vec![ShapedGlyph { ch: 'm', advance: 8 }] };
    let c = CursorLayout::new(
        Point { x: 16, y: 0 },
        8,
        16,
        hsla(0, 0, 0, 1000),
        CursorShape::Block,
        Some(line.clone()),
    );
    let commands = c.paint(zero());
    assert_eq!(commands.len(), 2);
    assert!(matches!(commands[0], PaintCommand::Quad(PaintQuad { kind: QuadKind::Fill, .. })));
    match &commands[1] {
        PaintCommand::Glyphs { origin, line: painted, line_height } => {
            assert_eq!(*origin, Point { x: 16, y: 0 });
            assert_eq!(painted, &line);
            assert_eq!(*line_height, 16);
        }
        other => panic!("expected a glyph run, got {:?}", other),
    }
}

#[test]
fn name_tag_paints_before_the_cursor_body() {
    let mut c = caret(CursorShape::Block, 8, 16);
    let name = CursorName {
        string: "ada".to_string(),
        color: hsla(0, 0, 1000, 1000),
        is_top_row: false,
    };
    c.layout(zero(), Some(name));
    let commands = c.paint(zero());
    assert_eq!(commands.len(), 2);
    assert!(matches!(commands[0], PaintCommand::Label { .. }));
    assert!(matches!(commands[1], PaintCommand::Quad(_)));
}

#[test]
fn name_tag_sits_above_the_cursor_off_the_top_row() {
    let mut c = caret(CursorShape::Block, 8, 16);
    let name = CursorName {
        string: "ada".to_string(),
        color: hsla(0, 0, 1000, 1000),
        is_top_row: false,
    };
    c.layout(zero(), Some(name));
    // text size is 16 * 2 / 3 = 10; the label is anchored 10 / 2 + 1 above.
    match &c.paint(zero())[0] {
        PaintCommand::Label { origin, background, color, text } => {
            assert_eq!(*origin, Point { x: 0, y: -6 });
            assert_eq!(*background, Hsla { h: 0, s: 0, l: 0, a: 1000 });
            assert_eq!(*color, Hsla { h: 0, s: 0, l: 1000, a: 1000 });
            assert_eq!(text, "ada");
        }
        other => panic!("expected a label, got {:?}", other),
    }
}

#[test]
fn name_tag_sits_right_of_the_cursor_on_the_top_row() {
    let mut c = caret(CursorShape::Block, 8, 16);
    let name =
        CursorName { string: "ada".to_string(), color: hsla(0, 0, 1000, 1000), is_top_row: true };
    c.layout(zero(), Some(name));
    match &c.paint(zero())[0] {
        PaintCommand::Label { origin, .. } => {
            // At the rectangle's right edge, less one pixel.
            assert_eq!(*origin, Point { x: 7, y: 0 });
        }
        other => panic!("expected a label, got {:?}", other),
    }
}

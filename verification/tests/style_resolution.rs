use vitesse::color::{Hsla, default_accent, default_border_hover, transparent};
use vitesse::geometry::Edges;
use vitesse::input::Input;
use vitesse::style::{InputStyle, Outline, Styles, TextStyle};

#[test]
fn focused_widget_gets_a_focus_ring() {
    let styles = Styles::init(TextStyle::default());
    let resolved = InputStyle::resolve(&styles, true, false);
    assert!(resolved.focus_ring.is_some());
}

#[test]
fn unfocused_widget_has_no_focus_ring() {
    let styles = Styles::init(TextStyle::default());
    for hovered in [false, true] {
        let resolved = InputStyle::resolve(&styles, false, hovered);
        assert!(resolved.focus_ring.is_none());
    }
}

#[test]
fn focus_transition_shows_the_accent_ring_on_the_next_pass() {
    let styles = Styles::init(TextStyle::default());
    let mut input = Input::new();

    // Unfocused: the pass resolves no ring.
    let before = InputStyle::resolve(&styles, input.focused, false);
    assert_eq!(before.focus_ring, None);

    // Focus arrives; the very next resolved style carries the accent ring.
    input.handle_focus();
    let after = InputStyle::resolve(&styles, input.focused, false);
    match after.focus_ring {
        Some(ring) => {
            assert_eq!(ring.color, default_accent());
            assert_eq!(ring.width, 1);
            assert_eq!(ring.radius, 2);
        }
        None => panic!("a focused widget must resolve a focus ring"),
    }

    // And blur removes it again.
    input.handle_blur();
    let gone = InputStyle::resolve(&styles, input.focused, false);
    assert_eq!(gone.focus_ring, None);
}

#[test]
fn hover_recolors_the_border() {
    let styles = Styles::init(TextStyle::default());
    let hovered = InputStyle::resolve(&styles, false, true);
    assert_eq!(hovered.border.color, default_border_hover());
    let resting = InputStyle::resolve(&styles, false, false);
    assert_eq!(resting.border.color, Hsla { h: 0, s: 0, l: 310, a: 400 });
}

#[test]
fn resolution_carries_the_registry_text_style() {
    let text = TextStyle { color: Hsla { h: 100, s: 200, l: 300, a: 1000 }, font_size: 13, line_height: 19 };
    let styles = Styles::init(text);
    let resolved = InputStyle::resolve(&styles, true, true);
    assert_eq!(resolved.text, text);
}

#[test]
fn registry_links_are_accent_colored_and_underlined() {
    let styles = Styles::init(TextStyle::default());
    assert_eq!(styles.link.color, default_accent());
    let underline = styles.link.underline.expect("links are underlined");
    assert_eq!(underline.color, default_accent());
    assert_eq!(underline.thickness, 1);
    assert!(!underline.wavy);
}

#[test]
fn default_style_is_white_with_side_padding() {
    let style = InputStyle::default();
    assert_eq!(style.background, Hsla { h: 0, s: 0, l: 1000, a: 1000 });
    assert_eq!(style.padding, Edges { top: 0, bottom: 0, left: 4, right: 4 });
    assert_eq!(style.margin, Edges { top: 0, bottom: 0, left: 0, right: 0 });
    assert_eq!(style.focus_ring, None);
    assert_eq!(style.text, TextStyle::default());
}

#[test]
fn outline_builders_replace_one_field_at_a_time() {
    let base = Outline::new(transparent());
    assert_eq!(base.radius, 2);
    assert_eq!(base.width, 1);
    let accent = base.color(default_accent());
    assert_eq!(accent.color, default_accent());
    assert_eq!(accent.radius, 2);
    let rounder = accent.radius(6);
    assert_eq!(rounder.radius, 6);
    assert_eq!(rounder.color, default_accent());
}

//! Visual styles: outlines, text styles, the per-window style registry, and
//! the resolver that turns registry plus focus and hover flags into the
//! effective style of the input widget.

use vstd::prelude::*;
use crate::color::{Hsla, hsla, default_accent, default_border_hover};
use crate::geometry::{Edges, Px, PX_LIMIT, px_bounded};

verus! {

/// Styles an outline, like a border or a focus ring.
#[derive(Clone, Copy, PartialEq, Eq, Structural, Debug)]
pub struct Outline {
    pub color: Hsla,
    pub radius: Px,
    pub width: Px,
}

impl Outline {
    /// Color is valid; corner radius and stroke width are nonnegative
    /// lengths.
    pub open spec fn wf(self) -> bool {
        self.color.wf() && 0 <= self.radius <= PX_LIMIT && 0 <= self.width <= PX_LIMIT
    }

    /// An outline in the given color, with the default corner radius and
    /// stroke width.
    pub fn new(color: Hsla) -> (r: Outline)
        ensures
            r.color == color,
            r.radius == 2,
            r.width == 1,
            color.wf() ==> r.wf(),
    {
        Outline { color, radius: 2, width: 1 }
    }

    /// The same outline in another color.
    pub fn color(self, color: Hsla) -> (r: Outline)
        ensures
            r == (Outline { color, ..self }),
    {
        Outline { color, ..self }
    }

    /// The same outline with another corner radius.
    pub fn radius(self, radius: Px) -> (r: Outline)
        ensures
            r == (Outline { radius, ..self }),
    {
        Outline { radius, ..self }
    }
}

impl Default for Outline {
    /// A mid-gray outline, corner radius two pixels, stroke width one.
    fn default() -> (r: Outline)
        ensures
            r == (Outline { color: Hsla { h: 0, s: 0, l: 460, a: 1000 }, radius: 2, width: 1 }),
            r.wf(),
    {
        Outline { color: hsla(0, 0, 460, 1000), radius: 2, width: 1 }
    }
}

/// The text style the widget draws its value with.
#[derive(Clone, Copy, PartialEq, Eq, Structural, Debug)]
pub struct TextStyle {
    pub color: Hsla,
    /// Font size, in pixels.
    pub font_size: Px,
    /// Distance between successive line baselines, in pixels.
    pub line_height: Px,
}

impl TextStyle {
    /// Color is valid; font size and line height are positive lengths.
    pub open spec fn wf(self) -> bool {
        self.color.wf() && 0 < self.font_size <= PX_LIMIT && 0 < self.line_height <= PX_LIMIT
    }
}

impl Default for TextStyle {
    /// Black text, sixteen-pixel font, twenty-four-pixel line height.
    fn default() -> (r: TextStyle)
        ensures
            r == (TextStyle {
                color: Hsla { h: 0, s: 0, l: 0, a: 1000 },
                font_size: 16,
                line_height: 24,
            }),
            r.wf(),
    {
        TextStyle { color: hsla(0, 0, 0, 1000), font_size: 16, line_height: 24 }
    }
}

/// An underline stroke, as part of a link style.
#[derive(Clone, Copy, PartialEq, Eq, Structural, Debug)]
pub struct UnderlineStyle {
    pub thickness: Px,
    pub color: Hsla,
    pub wavy: bool,
}

/// How link-like highlighted text is drawn.
#[derive(Clone, Copy, PartialEq, Eq, Structural, Debug)]
pub struct LinkStyle {
    pub color: Hsla,
    pub underline: Option<UnderlineStyle>,
}

/// The per-window style registry: created once when the window opens and
/// read by every render pass.
#[derive(Clone, Copy, PartialEq, Eq, Structural, Debug)]
pub struct Styles {
    pub text: TextStyle,
    pub link: LinkStyle,
}

impl Styles {
    pub open spec fn wf(self) -> bool {
        self.text.wf()
    }

    /// Builds the registry from the window's base text style; links are
    /// accent-colored with a one-pixel accent underline.
    pub fn init(text: TextStyle) -> (r: Styles)
        ensures
            r.text == text,
            r.link == (LinkStyle {
                color: Hsla { h: 683, s: 910, l: 490, a: 1000 },
                underline: Some(
                    UnderlineStyle {
                        thickness: 1,
                        color: Hsla { h: 683, s: 910, l: 490, a: 1000 },
                        wavy: false,
                    },
                ),
            }),
            text.wf() ==> r.wf(),
    {
        let accent = default_accent();
        let link = LinkStyle {
            color: accent,
            underline: Some(UnderlineStyle { thickness: 1, color: accent, wavy: false }),
        };
        Styles { text, link }
    }
}

/// The effective visual style of the input widget for one render pass.
#[derive(Clone, Copy, PartialEq, Eq, Structural, Debug)]
pub struct InputStyle {
    pub background: Hsla,
    pub padding: Edges,
    pub margin: Edges,
    /// Outline drawn around the focused widget; `None` when unfocused.
    pub focus_ring: Option<Outline>,
    pub border: Outline,
    pub text: TextStyle,
}

impl InputStyle {
    pub open spec fn wf(self) -> bool {
        &&& self.background.wf()
        &&& self.padding.bounded()
        &&& self.margin.bounded()
        &&& match self.focus_ring {
            Some(ring) => ring.wf(),
            None => true,
        }
        &&& self.border.wf()
        &&& self.text.wf()
    }

    /// The effective style for a render pass: the widget's base look over
    /// the registry's text style, with the focus ring present exactly when
    /// the widget is focused and the border recolored while hovered.
    pub open spec fn spec_resolved(styles: Styles, focused: bool, hovered: bool) -> InputStyle {
        InputStyle {
            background: Hsla { h: 0, s: 0, l: 1000, a: 1000 },
            padding: Edges { top: 0, bottom: 0, left: 4, right: 4 },
            margin: Edges { top: 0, bottom: 0, left: 0, right: 0 },
            focus_ring: if focused {
                Some(
                    Outline {
                        color: Hsla { h: 683, s: 910, l: 490, a: 1000 },
                        radius: 2,
                        width: 1,
                    },
                )
            } else {
                None
            },
            border: Outline {
                color: if hovered {
                    Hsla { h: 0, s: 0, l: 310, a: 1000 }
                } else {
                    Hsla { h: 0, s: 0, l: 310, a: 400 }
                },
                radius: 2,
                width: 1,
            },
            text: styles.text,
        }
    }

    /// Resolves the widget's effective style for this render pass from the
    /// window's style registry and the current focus and hover flags.
    /// Nothing is cached: a focus or hover transition is reflected on the
    /// very next pass.  The focus ring is present exactly when the widget is
    /// focused, and hovering recolors the border.
    pub fn resolve(styles: &Styles, focused: bool, hovered: bool) -> (r: InputStyle)
        ensures
            r == InputStyle::spec_resolved(*styles, focused, hovered),
            r.focus_ring is Some <==> focused,
            styles.wf() ==> r.wf(),
    {
        let focus_ring = if focused {
            Some(Outline::new(default_accent()))
        } else {
            None
        };
        let border = if hovered {
            Outline::new(default_border_hover())
        } else {
            Outline::new(hsla(0, 0, 310, 400))
        };
        InputStyle {
            background: hsla(0, 0, 1000, 1000),
            padding: Edges { top: 0, bottom: 0, left: 4, right: 4 },
            margin: Edges::all(0),
            focus_ring,
            border,
            text: styles.text,
        }
    }
}

impl Default for InputStyle {
    /// The unfocused, unhovered style over the default text style.
    fn default() -> (r: InputStyle)
        ensures
            r.background == (Hsla { h: 0, s: 0, l: 1000, a: 1000 }),
            r.padding == (Edges { top: 0, bottom: 0, left: 4, right: 4 }),
            r.margin == (Edges { top: 0, bottom: 0, left: 0, right: 0 }),
            r.focus_ring is None,
            r.border.color == (Hsla { h: 0, s: 0, l: 310, a: 400 }),
            r.text == (TextStyle {
                color: Hsla { h: 0, s: 0, l: 0, a: 1000 },
                font_size: 16,
                line_height: 24,
            }),
            r.wf(),
    {
        InputStyle {
            background: hsla(0, 0, 1000, 1000),
            padding: Edges { top: 0, bottom: 0, left: 4, right: 4 },
            margin: Edges::all(0),
            focus_ring: None,
            border: Outline::new(hsla(0, 0, 310, 400)),
            text: TextStyle::default(),
        }
    }
}

} // verus!

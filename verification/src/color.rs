//! Colors in the HSLA space, with each channel held in thousandths.
//!
//! Hue is a fraction of a full turn; saturation, lightness and alpha are
//! fractions of one.  Each channel is stored as an integer number of
//! thousandths in `0..=1000`, which is ample for the palette this widget
//! uses and keeps the color type free of floating point.

use vstd::prelude::*;

verus! {

/// One color channel: a fraction in thousandths, `0..=1000`.
pub const CHANNEL_MAX: u16 = 1000;

/// A color in HSLA space; every channel is a fraction in thousandths.
#[derive(Clone, Copy, PartialEq, Eq, Structural, Debug)]
pub struct Hsla {
    pub h: u16,
    pub s: u16,
    pub l: u16,
    pub a: u16,
}

impl Hsla {
    /// Whether every channel is a valid fraction.
    pub open spec fn wf(self) -> bool {
        self.h <= CHANNEL_MAX && self.s <= CHANNEL_MAX && self.l <= CHANNEL_MAX && self.a
            <= CHANNEL_MAX
    }
}

/// Builds a color from hue, saturation, lightness and alpha, each in
/// thousandths.
pub fn hsla(h: u16, s: u16, l: u16, a: u16) -> (r: Hsla)
    requires
        h <= CHANNEL_MAX,
        s <= CHANNEL_MAX,
        l <= CHANNEL_MAX,
        a <= CHANNEL_MAX,
    ensures
        r == (Hsla { h, s, l, a }),
        r.wf(),
{
    Hsla { h, s, l, a }
}

/// The accent color: links and the focus ring.
pub fn default_accent() -> (r: Hsla)
    ensures
        r == (Hsla { h: 683, s: 910, l: 490, a: 1000 }),
        r.wf(),
{
    Hsla { h: 683, s: 910, l: 490, a: 1000 }
}

/// The highlight painted behind selected text.
pub fn default_selection() -> (r: Hsla)
    ensures
        r == (Hsla { h: 600, s: 670, l: 460, a: 500 }),
        r.wf(),
{
    Hsla { h: 600, s: 670, l: 460, a: 500 }
}

/// The resting border color.
pub fn default_border() -> (r: Hsla)
    ensures
        r == (Hsla { h: 0, s: 0, l: 730, a: 1000 }),
        r.wf(),
{
    Hsla { h: 0, s: 0, l: 730, a: 1000 }
}

/// The border color while the pointer hovers the widget.
pub fn default_border_hover() -> (r: Hsla)
    ensures
        r == (Hsla { h: 0, s: 0, l: 310, a: 1000 }),
        r.wf(),
{
    Hsla { h: 0, s: 0, l: 310, a: 1000 }
}

/// The fully transparent color.
pub fn transparent() -> (r: Hsla)
    ensures
        r == (Hsla { h: 0, s: 0, l: 0, a: 0 }),
        r.wf(),
{
    Hsla { h: 0, s: 0, l: 0, a: 0 }
}

} // verus!

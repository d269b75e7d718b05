//! The icon names the widget set ships, and the widget-side description of
//! an icon element.

use vstd::prelude::*;
use crate::color::Hsla;
use crate::geometry::Px;

verus! {

/// The icons the widget set ships.
#[derive(Clone, Copy, PartialEq, Eq, Structural, Debug)]
pub enum IconName {
    Check,
    QuestionMark,
}

impl IconName {
    /// The asset path of this icon's image.
    pub fn path(&self) -> (r: &'static str)
        ensures
            *self == IconName::Check ==> r@ == "icons/lucide/check.svg"@,
            *self == IconName::QuestionMark ==> r@ == "icons/lucide/help-circle.svg"@,
    {
        match self {
            IconName::Check => "icons/lucide/check.svg",
            IconName::QuestionMark => "icons/lucide/help-circle.svg",
        }
    }
}

/// The widget-side description of an icon element: which image, drawn at
/// which size in which color.  The host turns it into a vector-image
/// element using [`IconName::path`].
#[derive(Clone, Copy, PartialEq, Eq, Structural, Debug)]
pub struct Icon {
    pub name: IconName,
    /// Edge length of the square icon, in pixels.
    pub size: Px,
    pub color: Hsla,
}

impl Icon {
    /// An icon at the set's standard sixteen-pixel size, in the set's
    /// magenta placeholder color.
    pub fn new(icon: IconName) -> (r: Icon)
        ensures
            r.name == icon,
            r.size == 16,
            r.color == (Hsla { h: 833, s: 1000, l: 500, a: 1000 }),
    {
        Icon { name: icon, size: 16, color: Hsla { h: 833, s: 1000, l: 500, a: 1000 } }
    }
}

} // verus!

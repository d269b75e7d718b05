//! Orthogonal interaction flags shared by the widget set's controls, and
//! the capability traits controls expose them through.
//!
//! A control that can be hovered, pressed or selected implements the
//! matching trait; [`InteractionState`] bundles the flags so a control can
//! carry them as one field.

use vstd::prelude::*;

verus! {

/// A selectable control's state, including the mixed "some but not all"
/// state of a group.
#[derive(Clone, Copy, PartialEq, Eq, Structural, Debug)]
pub enum Selected {
    Selected,
    Unselected,
    Indeterminate,
}

/// A control the pointer can hover.
pub trait Hoverable: Sized {
    /// Whether the control reports itself hovered.
    spec fn spec_hovered(&self) -> bool;

    fn hovered(self) -> (r: bool)
        ensures
            r == self.spec_hovered(),
    ;

    fn set_hovered(&mut self, hovered: bool)
        ensures
            final(self).spec_hovered() == hovered,
    ;
}

/// A control the pointer can press.
pub trait Pressable: Sized {
    /// Whether the control reports itself pressed.
    spec fn spec_pressed(&self) -> bool;

    fn pressed(self) -> (r: bool)
        ensures
            r == self.spec_pressed(),
    ;

    fn set_pressed(&mut self, pressed: bool)
        ensures
            final(self).spec_pressed() == pressed,
    ;
}

/// A control that can be selected.
pub trait Selectable: Sized {
    /// The selection state the control reports.
    spec fn spec_selected(&self) -> Selected;

    fn selected(self) -> (r: Selected)
        ensures
            r == self.spec_selected(),
    ;

    fn set_selected(&mut self, selected: Selected)
        ensures
            final(self).spec_selected() == selected,
    ;
}

/// The interaction flags of one control.
#[derive(Clone, Copy, PartialEq, Eq, Structural, Debug)]
pub struct InteractionState {
    pub disabled: bool,
    pub dragged: bool,
    pub hovered: bool,
    pub pressed: bool,
    pub selected: Selected,
}

impl InteractionState {
    /// A resting control: enabled, untouched, unselected.
    pub fn new() -> (r: InteractionState)
        ensures
            r == (InteractionState {
                disabled: false,
                dragged: false,
                hovered: false,
                pressed: false,
                selected: Selected::Unselected,
            }),
    {
        InteractionState {
            disabled: false,
            dragged: false,
            hovered: false,
            pressed: false,
            selected: Selected::Unselected,
        }
    }
}

impl Hoverable for InteractionState {
    open spec fn spec_hovered(&self) -> bool {
        self.hovered
    }

    fn hovered(self) -> (r: bool)
        ensures
            r == self.spec_hovered(),
    {
        self.hovered
    }

    fn set_hovered(&mut self, hovered: bool)
        ensures
            final(self).spec_hovered() == hovered,
    {
        self.hovered = hovered;
    }
}

impl Pressable for InteractionState {
    open spec fn spec_pressed(&self) -> bool {
        self.pressed
    }

    fn pressed(self) -> (r: bool)
        ensures
            r == self.spec_pressed(),
    {
        self.pressed
    }

    fn set_pressed(&mut self, pressed: bool)
        ensures
            final(self).spec_pressed() == pressed,
    {
        self.pressed = pressed;
    }
}

impl Selectable for InteractionState {
    open spec fn spec_selected(&self) -> Selected {
        self.selected
    }

    fn selected(self) -> (r: Selected)
        ensures
            r == self.spec_selected(),
    {
        self.selected
    }

    fn set_selected(&mut self, selected: Selected)
        ensures
            final(self).spec_selected() == selected,
    {
        self.selected = selected;
    }
}

} // verus!

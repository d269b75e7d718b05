//! The input widget: owns the text state, tracks focus, and builds the
//! per-frame element.
//!
//! The host's focus dispatcher calls [`Input::handle_focus`] and
//! [`Input::handle_blur`]; every mutation is applied before the next
//! frame's prepaint reads the state, so a focus transition shows on the
//! very next frame.

use vstd::prelude::*;
use vstd::string::*;
use crate::cursor::CursorShape;
use crate::element::InputElement;
use crate::input_state::{InputError, InputState, has_line_break};

verus! {

/// The event the widget emits on a focus transition.
#[derive(Clone, Copy, PartialEq, Eq, Structural, Debug)]
pub enum InputEvent {
    Focus,
    Blur,
}

/// One single-line input widget.
pub struct Input {
    /// The text, caret, selection and composition state.
    pub state: InputState,
    /// Text shown while the value is empty.
    pub placeholder: Option<String>,
    /// Whether the widget owns focus.
    pub focused: bool,
    /// The cursor shape drawn while focused.
    pub cursor_shape: CursorShape,
}

impl Input {
    pub open spec fn wf(self) -> bool {
        self.state.wf()
    }

    /// A fresh widget: empty value, unfocused, bar cursor, no placeholder.
    pub fn new() -> (r: Input)
        ensures
            r.wf(),
            r.state.text@ == Seq::<char>::empty(),
            r.state.cursor == 0,
            r.state.selection is None,
            r.state.marked is None,
            r.placeholder is None,
            r.focused == false,
            r.cursor_shape == CursorShape::Bar,
    {
        Input {
            state: InputState::new(),
            placeholder: None,
            focused: false,
            cursor_shape: CursorShape::Bar,
        }
    }

    /// The same widget with a placeholder.
    pub fn set_placeholder(self, placeholder: &str) -> (r: Input)
        ensures
            r.placeholder matches Some(p) && p@ == placeholder@,
            r.state == self.state,
            r.focused == self.focused,
            r.cursor_shape == self.cursor_shape,
    {
        Input { placeholder: Some(String::from_str(placeholder)), ..self }
    }

    /// Replaces the value wholesale; delegates to the state.  Fails with
    /// [`InputError::InvalidInput`], leaving the widget unchanged, exactly
    /// when `value` contains a line break.
    pub fn set_value(&mut self, value: &str) -> (r: Result<(), InputError>)
        requires
            old(self).wf(),
        ensures
            final(self).wf(),
            r is Err <==> has_line_break(value@),
            r is Err ==> *final(self) == *old(self),
            r is Ok ==> final(self).state.text@ == value@ && final(self).state.cursor
                == value@.len() && final(self).state.selection is None,
            final(self).placeholder == old(self).placeholder,
            final(self).focused == old(self).focused,
            final(self).cursor_shape == old(self).cursor_shape,
    {
        self.state.set_value(value)
    }

    /// The focus dispatcher reports focus gained: remember it and emit the
    /// event.
    pub fn handle_focus(&mut self) -> (r: InputEvent)
        ensures
            r == InputEvent::Focus,
            final(self).focused == true,
            final(self).state == old(self).state,
            final(self).placeholder == old(self).placeholder,
            final(self).cursor_shape == old(self).cursor_shape,
    {
        self.focused = true;
        InputEvent::Focus
    }

    /// The focus dispatcher reports focus lost: remember it and emit the
    /// event.
    pub fn handle_blur(&mut self) -> (r: InputEvent)
        ensures
            r == InputEvent::Blur,
            final(self).focused == false,
            final(self).state == old(self).state,
            final(self).placeholder == old(self).placeholder,
            final(self).cursor_shape == old(self).cursor_shape,
    {
        self.focused = false;
        InputEvent::Blur
    }

    /// Whether the cursor is shown this frame: only a focused widget blinks
    /// its cursor, and `blink_on` is the external blink timer's phase.
    pub fn cursor_visible(&self, blink_on: bool) -> (r: bool)
        ensures
            r == (self.focused && blink_on),
    {
        self.focused && blink_on
    }

    /// Builds this frame's element from the widget's current state.  The
    /// element starts with no cached cursor rectangle: the frame's own
    /// prepaint fills it in.
    pub fn render(&self, blink_on: bool) -> (r: InputElement)
        ensures
            r.focused == self.focused,
            r.cursor_visible == (self.focused && blink_on),
            r.cursor_shape == self.cursor_shape,
            r.last_cursor_bounds is None,
    {
        InputElement {
            focused: self.focused,
            cursor_visible: self.cursor_visible(blink_on),
            cursor_shape: self.cursor_shape,
            last_cursor_bounds: None,
        }
    }
}

} // verus!

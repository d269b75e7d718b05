//! The bridge between the platform's text-composition system and the
//! widget's state.
//!
//! Exactly one handler is active per focused input at a time: the paint
//! phase installs a fresh one each frame, valid until the next paint.  Every
//! mutation delegates to [`InputState`]; the handler itself holds nothing
//! but the cursor rectangle cached from the frame's prepaint, which answers
//! the composition system's bounds query.  Out-of-range queries never fail:
//! they clamp to the buffer, because composition systems routinely query
//! stale ranges and must not crash the input loop.

use vstd::prelude::*;
use crate::geometry::Bounds;
use crate::input_state::{InputError, InputState, spec_clamp_range, has_line_break};

verus! {

/// The per-frame bridge the paint phase installs for the platform's
/// composition system.
#[derive(Clone, Copy, PartialEq, Eq, Structural, Debug)]
pub struct TextInputHandler {
    /// The cursor rectangle computed by the frame's prepaint, or `None`
    /// when no prepaint has run yet.
    pub cursor_bounds: Option<Bounds>,
}

impl TextInputHandler {
    /// What the bounds query answers: the cached cursor rectangle.
    pub open spec fn spec_bounds_for_range(self) -> Option<Bounds> {
        self.cursor_bounds
    }

    /// A handler for a widget that has not been laid out yet.
    pub fn new() -> (r: TextInputHandler)
        ensures
            r.cursor_bounds is None,
    {
        TextInputHandler { cursor_bounds: None }
    }

    /// A handler carrying the cursor rectangle of the current frame.
    pub fn with_cursor_bounds(cursor_bounds: Option<Bounds>) -> (r: TextInputHandler)
        ensures
            r.cursor_bounds == cursor_bounds,
    {
        TextInputHandler { cursor_bounds }
    }

    /// Reports the current selection (or the caret) to the composition
    /// system.
    pub fn selected_text_range(&self, state: &InputState) -> (r: Option<(usize, usize)>)
        ensures
            r == match state.selection {
                Some(range) => Some(range),
                None => Some((state.cursor, state.cursor)),
            },
    {
        state.selected_text_range()
    }

    /// Reports the in-progress composition range, or `None`.
    pub fn marked_text_range(&self, state: &InputState) -> (r: Option<(usize, usize)>)
        ensures
            r == state.marked,
    {
        state.marked_text_range()
    }

    /// The text within `range`, clamped to the buffer.
    pub fn text_for_range(&self, state: &InputState, range: (usize, usize)) -> (r: Option<String>)
        ensures
            r matches Some(t) && ({
                let (start, end) = spec_clamp_range(
                    range.0 as int,
                    range.1 as int,
                    state.text@.len() as int,
                );
                t@ == state.text@.subrange(start, end)
            }),
    {
        let len = state.text.as_str().unicode_len();
        let s = if range.0 <= len {
            range.0
        } else {
            len
        };
        let e = if range.1 <= len {
            range.1
        } else {
            len
        };
        let clamped = if s <= e {
            (s, e)
        } else {
            (e, s)
        };
        state.text_for_range(clamped)
    }

    /// Replaces `range` (or the selection) with `text`; fails exactly when
    /// `text` holds a line break, leaving the state unchanged.
    pub fn replace_text_in_range(
        &self,
        state: &mut InputState,
        range: Option<(usize, usize)>,
        text: &str,
    ) -> (r: Result<(), InputError>)
        requires
            old(state).wf(),
        ensures
            final(state).wf(),
            r is Err <==> has_line_break(text@),
            r is Err ==> *final(state) == *old(state),
            r is Ok ==> ({
                let (start, end) = old(state).spec_edit_range(range);
                &&& final(state).text@ == crate::input_state::spec_spliced(
                    old(state).text@,
                    start,
                    end,
                    text@,
                )
                &&& final(state).cursor == start + text@.len()
                &&& final(state).selection is None
                &&& final(state).marked is None
            }),
    {
        state.replace_text_in_range(range, text)
    }

    /// Stages a composition preview; fails exactly when `new_text` holds a
    /// line break, leaving the state unchanged.
    pub fn replace_and_mark_text_in_range(
        &self,
        state: &mut InputState,
        range: Option<(usize, usize)>,
        new_text: &str,
        new_selected_range: Option<(usize, usize)>,
    ) -> (r: Result<(), InputError>)
        requires
            old(state).wf(),
        ensures
            final(state).wf(),
            r is Err <==> has_line_break(new_text@),
            r is Err ==> *final(state) == *old(state),
            r is Ok ==> ({
                let (start, end) = old(state).spec_mark_target_range(range);
                &&& final(state).text@ == crate::input_state::spec_spliced(
                    old(state).text@,
                    start,
                    end,
                    new_text@,
                )
                &&& final(state).marked == Some(
                    ((start as usize), ((start + new_text@.len()) as usize)),
                )
            }),
    {
        state.replace_and_mark_text_in_range(range, new_text, new_selected_range)
    }

    /// Ends the pending composition, committing the preview text.
    pub fn unmark_text(&self, state: &mut InputState)
        requires
            old(state).wf(),
        ensures
            final(state).wf(),
            final(state).marked is None,
            final(state).text == old(state).text,
            final(state).cursor == old(state).cursor,
            final(state).selection == old(state).selection,
    {
        state.unmark_text()
    }

    /// The rectangle to position the composition window at: the cursor
    /// rectangle cached from the frame's prepaint, or `None` when no
    /// prepaint has run yet.
    pub fn bounds_for_range(&self, _range: (usize, usize)) -> (r: Option<Bounds>)
        ensures
            r == self.spec_bounds_for_range(),
    {
        self.cursor_bounds
    }
}

/// Before any prepaint has executed for a widget, its handler caches no
/// cursor rectangle, so the composition system's bounds query answers
/// `None`.
pub proof fn lemma_no_bounds_before_prepaint(handler: TextInputHandler)
    requires
        handler.cursor_bounds is None,
    ensures
        handler.spec_bounds_for_range() is None,
{
}

} // verus!

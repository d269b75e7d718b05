//! The widget's in-memory text, caret, selection and composition state.
//!
//! Offsets are character offsets (codepoints), chosen consistently across
//! every operation.  The buffer is single-line: no operation ever lets a
//! line-break character into the text, and every operation keeps the caret
//! and both optional ranges inside the buffer.

use vstd::prelude::*;
use vstd::string::*;

verus! {

/// Why an edit was rejected.
#[derive(Clone, Copy, PartialEq, Eq, Structural, Debug)]
pub enum InputError {
    /// The edit would put a line-break character into the single-line buffer.
    InvalidInput,
}

/// Whether `c` breaks a line.
pub open spec fn is_line_break(c: char) -> bool {
    c == '\n' || c == '\r'
}

/// Whether any character of `s` breaks a line.
pub open spec fn has_line_break(s: Seq<char>) -> bool {
    exists|i: int| 0 <= i < s.len() && is_line_break(s[i])
}

/// Clamps both endpoints of a queried range to `len` and orders them.
pub open spec fn spec_clamp_range(start: int, end: int, len: int) -> (int, int) {
    let s = if start <= len {
        start
    } else {
        len
    };
    let e = if end <= len {
        end
    } else {
        len
    };
    if s <= e {
        (s, e)
    } else {
        (e, s)
    }
}

/// `text` with `text[start..end]` replaced by `insert`.
pub open spec fn spec_spliced(text: Seq<char>, start: int, end: int, insert: Seq<char>) -> Seq<
    char,
> {
    text.subrange(0, start) + insert + text.subrange(end, text.len() as int)
}

/// The text buffer, caret, selection and composition range of one
/// single-line input widget.
pub struct InputState {
    /// The committed buffer, plus any uncommitted composition preview.
    pub text: String,
    /// Caret position, a character offset into `text`.
    pub cursor: usize,
    /// Selected character range, ordered, or `None` when nothing is selected.
    pub selection: Option<(usize, usize)>,
    /// The in-progress composition preview's character range, or `None`.
    pub marked: Option<(usize, usize)>,
}

impl InputState {
    /// The state's invariant: the buffer holds a single line, and the caret,
    /// the selection and the composition range all lie inside it.
    pub open spec fn wf(self) -> bool {
        &&& !has_line_break(self.text@)
        &&& self.cursor <= self.text@.len()
        &&& match self.selection {
            Some((s, e)) => s <= e && e <= self.text@.len(),
            None => true,
        }
        &&& match self.marked {
            Some((s, e)) => s <= e && e <= self.text@.len(),
            None => true,
        }
    }

    /// The range an edit without an explicit range applies to: the selection
    /// when there is one, otherwise the caret (an empty range).
    pub open spec fn spec_target_range(self) -> (int, int) {
        match self.selection {
            Some((s, e)) => (s as int, e as int),
            None => (self.cursor as int, self.cursor as int),
        }
    }

    /// The range a [`Self::replace_text_in_range`] call edits: the given
    /// range clamped to the buffer, or the target range when none is given.
    pub open spec fn spec_edit_range(self, range: Option<(usize, usize)>) -> (int, int) {
        match range {
            Some((s, e)) => spec_clamp_range(s as int, e as int, self.text@.len() as int),
            None => self.spec_target_range(),
        }
    }

    /// The range a [`Self::replace_and_mark_text_in_range`] call edits: the
    /// given range clamped to the buffer; otherwise the pending composition
    /// range, so that a superseding preview discards the previous one;
    /// otherwise the target range.
    pub open spec fn spec_mark_target_range(self, range: Option<(usize, usize)>) -> (int, int) {
        match range {
            Some((s, e)) => spec_clamp_range(s as int, e as int, self.text@.len() as int),
            None => match self.marked {
                Some((s, e)) => (s as int, e as int),
                None => self.spec_target_range(),
            },
        }
    }

    /// A fresh state: empty text, caret at zero, nothing selected or marked.
    pub fn new() -> (r: InputState)
        ensures
            r.wf(),
            r.text@ == Seq::<char>::empty(),
            r.cursor == 0,
            r.selection is None,
            r.marked is None,
    {
        InputState { text: String::new(), cursor: 0, selection: None, marked: None }
    }

    /// The current value of the buffer.
    pub fn value(&self) -> (r: String)
        ensures
            r@ == self.text@,
    {
        self.text.clone()
    }

    /// Replaces the buffer wholesale.  Fails with [`InputError::InvalidInput`],
    /// leaving the state unchanged, exactly when `value` contains a line
    /// break; otherwise the caret moves to the end of the new text and the
    /// selection and composition range are cleared.
    pub fn set_value(&mut self, value: &str) -> (r: Result<(), InputError>)
        requires
            old(self).wf(),
        ensures
            final(self).wf(),
            r is Err <==> has_line_break(value@),
            r is Err ==> r == Result::<(), InputError>::Err(InputError::InvalidInput)
                && *final(self) == *old(self),
            r is Ok ==> final(self).text@ == value@ && final(self).cursor == value@.len()
                && final(self).selection is None && final(self).marked is None,
    {
        if contains_line_break(value) {
            return Err(InputError::InvalidInput);
        }
        let len = value.unicode_len();
        self.text = String::from_str(value);
        self.cursor = len;
        self.selection = None;
        self.marked = None;
        Ok(())
    }

    /// The selection to report to the platform's composition system: the
    /// selected range, or the caret as an empty range.
    pub fn selected_text_range(&self) -> (r: Option<(usize, usize)>)
        ensures
            r == match self.selection {
                Some(range) => Some(range),
                None => Some((self.cursor, self.cursor)),
            },
    {
        match self.selection {
            Some(range) => Some(range),
            None => Some((self.cursor, self.cursor)),
        }
    }

    /// The in-progress composition preview's range, or `None`.
    pub fn marked_text_range(&self) -> (r: Option<(usize, usize)>)
        ensures
            r == self.marked,
    {
        self.marked
    }

    /// The text within `range`, or `None` when the range does not lie inside
    /// the buffer.
    pub fn text_for_range(&self, range: (usize, usize)) -> (r: Option<String>)
        ensures
            range.0 <= range.1 <= self.text@.len() ==> (r matches Some(t) && t@
                == self.text@.subrange(range.0 as int, range.1 as int)),
            !(range.0 <= range.1 <= self.text@.len()) ==> r is None,
    {
        let (start, end) = range;
        if start <= end && end <= self.text.as_str().unicode_len() {
            Some(String::from_str(self.text.as_str().substring_char(start, end)))
        } else {
            None
        }
    }

    /// Replaces `range` (clamped to the buffer; the selection or the caret
    /// when absent) with `replacement`.  Fails with
    /// [`InputError::InvalidInput`], leaving the state unchanged, exactly
    /// when `replacement` contains a line break; otherwise the caret moves to
    /// the end of the inserted text and the selection and composition range
    /// are cleared.
    pub fn replace_text_in_range(
        &mut self,
        range: Option<(usize, usize)>,
        replacement: &str,
    ) -> (r: Result<(), InputError>)
        requires
            old(self).wf(),
        ensures
            final(self).wf(),
            0 <= final(self).cursor <= final(self).text@.len(),
            r is Err <==> has_line_break(replacement@),
            r is Err ==> r == Result::<(), InputError>::Err(InputError::InvalidInput)
                && *final(self) == *old(self),
            r is Ok ==> ({
                let (start, end) = old(self).spec_edit_range(range);
                &&& final(self).text@ == spec_spliced(old(self).text@, start, end, replacement@)
                &&& final(self).cursor == start + replacement@.len()
                &&& final(self).selection is None
                &&& final(self).marked is None
            }),
    {
        if contains_line_break(replacement) {
            return Err(InputError::InvalidInput);
        }
        let (start, end) = self.edit_range(range);
        self.splice(start, end, replacement);
        Ok(())
    }

    /// Stages an uncommitted composition preview: replaces `range` (clamped;
    /// the pending preview, the selection or the caret when absent) with
    /// `new_text` and marks the inserted span.  `new_selected_range` selects
    /// within the inserted text, clamped to it; when absent the caret moves
    /// to the end of the inserted text.  Fails with
    /// [`InputError::InvalidInput`], leaving the state unchanged, exactly
    /// when `new_text` contains a line break.
    pub fn replace_and_mark_text_in_range(
        &mut self,
        range: Option<(usize, usize)>,
        new_text: &str,
        new_selected_range: Option<(usize, usize)>,
    ) -> (r: Result<(), InputError>)
        requires
            old(self).wf(),
        ensures
            final(self).wf(),
            r is Err <==> has_line_break(new_text@),
            r is Err ==> r == Result::<(), InputError>::Err(InputError::InvalidInput)
                && *final(self) == *old(self),
            r is Ok ==> ({
                let (start, end) = old(self).spec_mark_target_range(range);
                &&& final(self).text@ == spec_spliced(old(self).text@, start, end, new_text@)
                &&& final(self).marked == Some(
                    ((start as usize), ((start + new_text@.len()) as usize)),
                )
                &&& match new_selected_range {
                    Some((a, b)) => {
                        let (ra, rb) = spec_clamp_range(a as int, b as int, new_text@.len() as int);
                        &&& final(self).selection == Some(
                            (((start + ra) as usize), ((start + rb) as usize)),
                        )
                        &&& final(self).cursor == start + rb
                    },
                    None => final(self).selection is None && final(self).cursor == start
                        + new_text@.len(),
                }
            }),
    {
        if contains_line_break(new_text) {
            return Err(InputError::InvalidInput);
        }
        let (start, end) = self.mark_target_range(range);
        self.splice(start, end, new_text);
        let inserted = self.cursor - start;
        self.marked = Some((start, self.cursor));
        match new_selected_range {
            Some((a, b)) => {
                let (ra, rb) = clamp_range(a, b, inserted);
                self.selection = Some((start + ra, start + rb));
                self.cursor = start + rb;
            },
            None => {},
        }
        Ok(())
    }

    /// Ends the pending composition by committing it: the preview text stays
    /// in the buffer and the composition range is cleared.  (Discarding the
    /// preview instead would also satisfy the platform protocol; committing
    /// keeps what the user last saw.)
    pub fn unmark_text(&mut self)
        requires
            old(self).wf(),
        ensures
            final(self).wf(),
            final(self).marked is None,
            final(self).text == old(self).text,
            final(self).cursor == old(self).cursor,
            final(self).selection == old(self).selection,
    {
        self.marked = None;
    }

    /// The range a replace call without an explicit range edits.
    fn edit_range(&self, range: Option<(usize, usize)>) -> (r: (usize, usize))
        requires
            self.wf(),
        ensures
            (r.0 as int, r.1 as int) == self.spec_edit_range(range),
            r.0 <= r.1 <= self.text@.len(),
    {
        let len = self.text.as_str().unicode_len();
        match range {
            Some((s, e)) => clamp_range(s, e, len),
            None => match self.selection {
                Some(range) => range,
                None => (self.cursor, self.cursor),
            },
        }
    }

    /// The range a replace-and-mark call without an explicit range edits.
    fn mark_target_range(&self, range: Option<(usize, usize)>) -> (r: (usize, usize))
        requires
            self.wf(),
        ensures
            (r.0 as int, r.1 as int) == self.spec_mark_target_range(range),
            r.0 <= r.1 <= self.text@.len(),
    {
        let len = self.text.as_str().unicode_len();
        match range {
            Some((s, e)) => clamp_range(s, e, len),
            None => match self.marked {
                Some(range) => range,
                None => match self.selection {
                    Some(range) => range,
                    None => (self.cursor, self.cursor),
                },
            },
        }
    }

    /// Replaces `self.text[start..end]` with `insert`, moving the caret to
    /// the end of the inserted text and clearing the selection and the
    /// composition range.
    fn splice(&mut self, start: usize, end: usize, insert: &str)
        requires
            old(self).wf(),
            start <= end <= old(self).text@.len(),
            !has_line_break(insert@),
        ensures
            final(self).wf(),
            final(self).text@ == spec_spliced(old(self).text@, start as int, end as int, insert@),
            final(self).cursor == start + insert@.len(),
            final(self).selection is None,
            final(self).marked is None,
    {
        let text_len = self.text.as_str().unicode_len();
        let mut built = String::from_str(self.text.as_str().substring_char(0, start));
        built.append(insert);
        let new_cursor = built.as_str().unicode_len();
        built.append(self.text.as_str().substring_char(end, text_len));
        proof {
            lemma_splice_keeps_single_line(self.text@, start as int, end as int, insert@);
        }
        self.text = built;
        self.cursor = new_cursor;
        self.selection = None;
        self.marked = None;
    }
}

/// A spliced single-line text is still a single line.
proof fn lemma_splice_keeps_single_line(text: Seq<char>, start: int, end: int, insert: Seq<char>)
    requires
        !has_line_break(text),
        !has_line_break(insert),
        0 <= start <= end <= text.len(),
    ensures
        !has_line_break(spec_spliced(text, start, end, insert)),
{
    let spliced = spec_spliced(text, start, end, insert);
    assert forall|i: int| 0 <= i < spliced.len() implies !is_line_break(spliced[i]) by {
        if i < start {
            assert(spliced[i] == text[i]);
        } else if i < start + insert.len() {
            assert(spliced[i] == insert[i - start]);
        } else {
            assert(spliced[i] == text[i - start - insert.len() + end]);
        }
    }
}

/// Computes [`spec_clamp_range`]: both endpoints clamped to `len`, ordered.
fn clamp_range(start: usize, end: usize, len: usize) -> (r: (usize, usize))
    ensures
        (r.0 as int, r.1 as int) == spec_clamp_range(start as int, end as int, len as int),
        r.0 <= r.1 <= len,
{
    let s = if start <= len {
        start
    } else {
        len
    };
    let e = if end <= len {
        end
    } else {
        len
    };
    if s <= e {
        (s, e)
    } else {
        (e, s)
    }
}

/// Whether `s` contains a line-break character.
fn contains_line_break(s: &str) -> (r: bool)
    ensures
        r == has_line_break(s@),
{
    let n = s.unicode_len();
    let mut i: usize = 0;
    while i < n
        invariant
            n == s@.len(),
            i <= n,
            forall|j: int| 0 <= j < i ==> !is_line_break(s@[j]),
        decreases n - i,
    {
        let c = s.get_char(i);
        if c == '\n' || c == '\r' {
            assert(is_line_break(s@[i as int]));
            return true;
        }
        i = i + 1;
    }
    false
}

} // verus!

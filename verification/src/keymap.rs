//! The editing actions of the input widget and the default keystrokes
//! bound to them.
//!
//! The host's dispatcher owns the keymap; this module states which
//! bindings the widget asks it to install, each scoped to the input
//! context.

use vstd::prelude::*;
use vstd::string::*;

verus! {

/// The editing actions an input widget reacts to.
#[derive(Clone, Copy, PartialEq, Eq, Structural, Debug)]
pub enum EditAction {
    MoveLeft,
    MoveRight,
    Delete,
    MoveToStart,
    MoveToEnd,
    SelectAll,
    CopySelection,
    CutSelection,
    PasteClipboard,
    Undo,
    Redo,
}

/// One keystroke bound to one action within one key context.
pub struct KeyBinding {
    /// The keystroke, in the host dispatcher's notation.
    pub keystroke: String,
    pub action: EditAction,
    /// The key context the binding is scoped to.
    pub context: String,
}

/// The keystroke-action pairs of the default input keymap, in binding
/// order.
pub open spec fn spec_default_bindings() -> Seq<(Seq<char>, EditAction)> {
    seq![
        ("left"@, EditAction::MoveLeft),
        ("right"@, EditAction::MoveRight),
        ("delete"@, EditAction::Delete),
        ("home"@, EditAction::MoveToStart),
        ("end"@, EditAction::MoveToEnd),
        ("cmd-a"@, EditAction::SelectAll),
        ("cmd-c"@, EditAction::CopySelection),
        ("cmd-x"@, EditAction::CutSelection),
        ("cmd-v"@, EditAction::PasteClipboard),
        ("cmd-z"@, EditAction::Undo),
        ("cmd-shift-z"@, EditAction::Redo),
    ]
}

/// The default keymap of the input widget: every editing action bound to
/// its keystroke, all scoped to the input context.
pub fn default_key_bindings() -> (r: Vec<KeyBinding>)
    ensures
        r@.map_values(|b: KeyBinding| (b.keystroke@, b.action)) =~= spec_default_bindings(),
        forall|i: int| 0 <= i < r@.len() ==> (#[trigger] r@[i]).context@ == "input"@,
{
    let mut bindings: Vec<KeyBinding> = Vec::new();
    bindings.push(binding("left", EditAction::MoveLeft));
    bindings.push(binding("right", EditAction::MoveRight));
    bindings.push(binding("delete", EditAction::Delete));
    bindings.push(binding("home", EditAction::MoveToStart));
    bindings.push(binding("end", EditAction::MoveToEnd));
    bindings.push(binding("cmd-a", EditAction::SelectAll));
    bindings.push(binding("cmd-c", EditAction::CopySelection));
    bindings.push(binding("cmd-x", EditAction::CutSelection));
    bindings.push(binding("cmd-v", EditAction::PasteClipboard));
    bindings.push(binding("cmd-z", EditAction::Undo));
    bindings.push(binding("cmd-shift-z", EditAction::Redo));
    assert(bindings@.map_values(|b: KeyBinding| (b.keystroke@, b.action))
        =~= spec_default_bindings());
    bindings
}

/// One binding in the input context.
fn binding(keystroke: &str, action: EditAction) -> (r: KeyBinding)
    ensures
        r.keystroke@ == keystroke@,
        r.action == action,
        r.context@ == "input"@,
{
    KeyBinding {
        keystroke: String::from_str(keystroke),
        action,
        context: String::from_str("input"),
    }
}

} // verus!

//! The text selection context menu: which editing commands it offers for a text field's state,
//! in which order, and the accelerator each command shows.

use vstd::prelude::*;

verus! {

/// An editing command of the context menu.
#[derive(Clone, Copy, Debug, PartialEq, Eq, Structural)]
pub enum EditCommand {
    Cut,
    Copy,
    Paste,
    Undo,
    Redo,
    SelectAll,
}

/// The state of a text field the menu is built for.
#[derive(Clone, Copy, Debug, PartialEq, Eq, Structural)]
pub struct TextFieldState {
    /// The field hides its text.
    pub password: bool,
    /// The field cannot be edited.
    pub read_only: bool,
    /// A valid, non-collapsed selection exists.
    pub has_selection: bool,
    /// The clipboard holds something that can be pasted.
    pub pasteable: bool,
    pub can_undo: bool,
    pub can_redo: bool,
    /// The field holds some text.
    pub has_text: bool,
}

pub open spec fn spec_when(cond: bool, command: EditCommand) -> Seq<EditCommand> {
    if cond {
        seq![command]
    } else {
        seq![]
    }
}

/// The commands offered, in menu order: Cut (an editable, non-password selection), Copy (a
/// non-password selection), Paste (an editable field with pasteable content), Undo and Redo (an
/// editable non-password field with that history), and Select all (a field with text).
pub open spec fn spec_edit_commands(s: TextFieldState) -> Seq<EditCommand> {
    let selection = !s.password && s.has_selection;
    let history = !s.password && !s.read_only;
    spec_when(selection && !s.read_only, EditCommand::Cut) + spec_when(selection, EditCommand::Copy)
        + spec_when(!s.read_only && s.pasteable, EditCommand::Paste) + spec_when(
        history && s.can_undo,
        EditCommand::Undo,
    ) + spec_when(history && s.can_redo, EditCommand::Redo) + spec_when(
        s.has_text,
        EditCommand::SelectAll,
    )
}

/// Lists the commands the context menu offers; an empty list shows no menu.
pub fn edit_commands(s: TextFieldState) -> (r: Vec<EditCommand>)
    ensures
        r@ == spec_edit_commands(s),
{
    let mut r: Vec<EditCommand> = Vec::new();
    if !s.password && s.has_selection {
        if !s.read_only {
            r.push(EditCommand::Cut);
        }
        r.push(EditCommand::Copy);
    }
    if !s.read_only && s.pasteable {
        r.push(EditCommand::Paste);
    }
    if !s.password && !s.read_only {
        if s.can_undo {
            r.push(EditCommand::Undo);
        }
        if s.can_redo {
            r.push(EditCommand::Redo);
        }
    }
    if s.has_text {
        r.push(EditCommand::SelectAll);
    }
    assert(r@ =~= spec_edit_commands(s));
    r
}

/// A password field never offers a command that reveals or changes its text through the
/// clipboard or the history, and a read-only field never offers one that edits it.
pub proof fn lemma_commands_respect_field(s: TextFieldState)
    ensures
        s.password ==> !spec_edit_commands(s).contains(EditCommand::Cut) && !spec_edit_commands(
            s,
        ).contains(EditCommand::Copy) && !spec_edit_commands(s).contains(EditCommand::Undo)
            && !spec_edit_commands(s).contains(EditCommand::Redo),
        s.read_only ==> !spec_edit_commands(s).contains(EditCommand::Cut) && !spec_edit_commands(
            s,
        ).contains(EditCommand::Paste) && !spec_edit_commands(s).contains(EditCommand::Undo)
            && !spec_edit_commands(s).contains(EditCommand::Redo),
{
    let c = spec_edit_commands(s);
    if s.password || s.read_only {
        assert forall|k: int| 0 <= k < c.len() implies c[k] != EditCommand::Undo && c[k]
            != EditCommand::Redo by {}
    }
    if s.password {
        assert forall|k: int| 0 <= k < c.len() implies c[k] != EditCommand::Cut && c[k]
            != EditCommand::Copy by {}
    }
    if s.read_only {
        assert forall|k: int| 0 <= k < c.len() implies c[k] != EditCommand::Cut && c[k]
            != EditCommand::Paste by {}
    }
}

/// The key a command's accelerator names, and whether the macOS label adds Shift to a Z
/// instead: Redo shows Shift+Command+Z there.
#[derive(Clone, Copy, Debug, PartialEq, Eq, Structural)]
pub struct Accelerator {
    pub letter: char,
    pub mac_shift_z: bool,
}

/// The accelerator a command shows.
pub fn accelerator(command: EditCommand) -> (r: Accelerator)
    ensures
        r.letter == (match command {
            EditCommand::Cut => 'X',
            EditCommand::Copy => 'C',
            EditCommand::Paste => 'V',
            EditCommand::Undo => 'Z',
            EditCommand::Redo => 'Y',
            EditCommand::SelectAll => 'A',
        }),
        r.mac_shift_z == (command == EditCommand::Redo),
{
    match command {
        EditCommand::Cut => Accelerator { letter: 'X', mac_shift_z: false },
        EditCommand::Copy => Accelerator { letter: 'C', mac_shift_z: false },
        EditCommand::Paste => Accelerator { letter: 'V', mac_shift_z: false },
        EditCommand::Undo => Accelerator { letter: 'Z', mac_shift_z: false },
        EditCommand::Redo => Accelerator { letter: 'Y', mac_shift_z: true },
        EditCommand::SelectAll => Accelerator { letter: 'A', mac_shift_z: false },
    }
}

} // verus!

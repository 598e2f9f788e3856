use reveal_winui::text_edit_menu::{accelerator, edit_commands, Accelerator, EditCommand, TextFieldState};

fn field() -> TextFieldState {
    TextFieldState {
        password: false,
        read_only: false,
        has_selection: true,
        pasteable: true,
        can_undo: true,
        can_redo: true,
        has_text: true,
    }
}

#[test]
fn an_editable_field_offers_every_command_in_order() {
    assert_eq!(
        edit_commands(field()),
        vec![
            EditCommand::Cut,
            EditCommand::Copy,
            EditCommand::Paste,
            EditCommand::Undo,
            EditCommand::Redo,
            EditCommand::SelectAll
        ]
    );
}

#[test]
fn a_password_field_offers_only_paste_and_select_all() {
    assert_eq!(
        edit_commands(TextFieldState { password: true, ..field() }),
        vec![EditCommand::Paste, EditCommand::SelectAll]
    );
}

#[test]
fn a_read_only_field_offers_copy_and_select_all() {
    assert_eq!(
        edit_commands(TextFieldState { read_only: true, ..field() }),
        vec![EditCommand::Copy, EditCommand::SelectAll]
    );
}

#[test]
fn an_empty_field_without_history_offers_nothing() {
    let empty = TextFieldState {
        password: false,
        read_only: false,
        has_selection: false,
        pasteable: false,
        can_undo: false,
        can_redo: false,
        has_text: false,
    };
    assert!(edit_commands(empty).is_empty());
    assert_eq!(edit_commands(TextFieldState { can_redo: true, ..empty }), vec![EditCommand::Redo]);
}

#[test]
fn accelerators() {
    assert_eq!(accelerator(EditCommand::Cut), Accelerator { letter: 'X', mac_shift_z: false });
    assert_eq!(accelerator(EditCommand::Copy).letter, 'C');
    assert_eq!(accelerator(EditCommand::Paste).letter, 'V');
    assert_eq!(accelerator(EditCommand::Undo), Accelerator { letter: 'Z', mac_shift_z: false });
    assert_eq!(accelerator(EditCommand::Redo), Accelerator { letter: 'Y', mac_shift_z: true });
    assert_eq!(accelerator(EditCommand::SelectAll).letter, 'A');
}

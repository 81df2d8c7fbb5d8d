use kanban_tui::export_dialog::{ExportDialogOutcome, ExportDialogState, ExportFormat, ExportStep};
use kanban_tui::keys::KeyInput;

#[test]
fn new_dialog_has_nothing_selected() {
    let d = ExportDialogState::new(3);
    assert_eq!(d.board_selections, vec![false, false, false]);
    assert_eq!(d.cursor, 0);
    assert_eq!(d.step, ExportStep::SelectBoards);
    assert_eq!(d.format, ExportFormat::Json);
    assert_eq!(d.filename, "export.json");
    assert!(!d.any_selected());
    assert!(d.selected_indices().is_empty());
    assert_eq!(ExportFormat::default(), ExportFormat::Json);
}

#[test]
fn toggle_and_select_all() {
    let mut d = ExportDialogState::new(3);
    d.toggle(1);
    assert_eq!(d.board_selections, vec![false, true, false]);
    assert!(d.any_selected());
    assert_eq!(d.selected_indices(), vec![1]);
    d.toggle(7);
    assert_eq!(d.board_selections, vec![false, true, false]);
    d.select_all();
    assert_eq!(d.board_selections, vec![true, true, true]);
    assert_eq!(d.selected_indices(), vec![0, 1, 2]);
    d.select_all();
    assert_eq!(d.board_selections, vec![false, false, false]);
}

#[test]
fn board_page_keys() {
    let mut d = ExportDialogState::new(3);
    assert_eq!(d.handle_key(KeyInput::Enter), ExportDialogOutcome::Continue);
    assert_eq!(d.step, ExportStep::SelectBoards, "Enter needs a selected board");
    assert_eq!(d.handle_key(KeyInput::Char('k')), ExportDialogOutcome::Continue);
    assert_eq!(d.cursor, 2, "moving up from the top wraps round");
    assert_eq!(d.handle_key(KeyInput::Down), ExportDialogOutcome::Continue);
    assert_eq!(d.cursor, 0);
    d.handle_key(KeyInput::Char('j'));
    d.handle_key(KeyInput::Char(' '));
    assert_eq!(d.board_selections, vec![false, true, false]);
    d.handle_key(KeyInput::Char('a'));
    assert_eq!(d.board_selections, vec![true, true, true]);
    d.handle_key(KeyInput::Enter);
    assert_eq!(d.step, ExportStep::ExportOptions);
    assert_eq!(ExportDialogState::new(1).handle_key(KeyInput::Esc), ExportDialogOutcome::Close);
}

#[test]
fn options_page_edits_the_file_name() {
    let mut d = ExportDialogState::new(1);
    d.toggle(0);
    d.handle_key(KeyInput::Enter);
    assert_eq!(d.step, ExportStep::ExportOptions);

    d.handle_key(KeyInput::Tab);
    assert_eq!(d.format, ExportFormat::Sqlite);
    assert_eq!(d.filename, "export.sqlite");
    d.handle_key(KeyInput::BackTab);
    assert_eq!(d.format, ExportFormat::Json);
    assert_eq!(d.filename, "export.json");

    for c in "/x:*".chars() {
        d.handle_key(KeyInput::Char(c));
    }
    assert_eq!(d.filename, "export.jsonx", "characters a path cannot hold are ignored");
    d.handle_key(KeyInput::Backspace);
    assert_eq!(d.filename, "export.json");

    assert_eq!(d.handle_key(KeyInput::Enter), ExportDialogOutcome::Execute);
    assert_eq!(d.handle_key(KeyInput::Esc), ExportDialogOutcome::Continue);
    assert_eq!(d.step, ExportStep::SelectBoards);
}

#[test]
fn switching_format_of_a_name_without_extension_appends_one() {
    let mut d = ExportDialogState::new(1);
    d.toggle(0);
    d.handle_key(KeyInput::Enter);
    for _ in 0..11 {
        d.handle_key(KeyInput::Backspace);
    }
    assert_eq!(d.filename, "");
    d.handle_key(KeyInput::Backspace);
    assert_eq!(d.filename, "");
    for c in "my.board.v2".chars() {
        d.handle_key(KeyInput::Char(c));
    }
    d.handle_key(KeyInput::Tab);
    assert_eq!(d.filename, "my.board.sqlite");
    d.handle_key(KeyInput::Tab);
    assert_eq!(d.filename, "my.board.json");
}

#[test]
fn empty_board_list_ignores_moves() {
    let mut d = ExportDialogState::new(0);
    d.handle_key(KeyInput::Down);
    d.handle_key(KeyInput::Up);
    d.handle_key(KeyInput::Char(' '));
    assert_eq!(d.cursor, 0);
    assert!(d.board_selections.is_empty());
}

#[test]
fn export_needs_a_board_and_a_file_name() {
    let mut d = ExportDialogState::new(3);
    assert_eq!(d.export_request(), None, "nothing selected");
    d.toggle(2);
    d.toggle(0);
    assert_eq!(d.export_request(), Some(vec![0, 2]));
    d.filename = String::new();
    assert_eq!(d.export_request(), None, "empty file name");
}

use kanban_tui::mode_keys::{route_name_dialog_key, NameDialogCommand};
use kanban_tui::app_state::{AppMode, DialogMode};
use kanban_tui::keys::KeyInput;
use kanban_tui::mode_keys::{
    route_archived_view_key, route_error_log_key, route_search_key, ArchivedViewCommand,
    ErrorLogCommand, SearchCommand,
};
use kanban_tui::prefix_dialog::prefix_collision_key;
use kanban_tui::sync_policy::{
    conflict_resolution_key, external_change_key, tick_task, DialogExit, TickTask,
};

#[test]
fn search_keys() {
    assert_eq!(route_search_key(KeyInput::Char('q')), SearchCommand::Insert('q'));
    assert_eq!(route_search_key(KeyInput::Backspace), SearchCommand::Backspace);
    assert_eq!(route_search_key(KeyInput::Enter), SearchCommand::Finish);
    assert_eq!(route_search_key(KeyInput::Esc), SearchCommand::Cancel);
    assert_eq!(route_search_key(KeyInput::Up), SearchCommand::Nothing);
}

#[test]
fn archived_view_keys() {
    assert_eq!(route_archived_view_key(KeyInput::Char('r')), ArchivedViewCommand::Restore);
    assert_eq!(route_archived_view_key(KeyInput::Char('x')), ArchivedViewCommand::DeletePermanently);
    assert_eq!(route_archived_view_key(KeyInput::Char('Q')), ArchivedViewCommand::Close);
    assert_eq!(route_archived_view_key(KeyInput::Esc), ArchivedViewCommand::Close);
    assert_eq!(route_archived_view_key(KeyInput::Down), ArchivedViewCommand::NavigateDown);
    assert_eq!(route_archived_view_key(KeyInput::Char('k')), ArchivedViewCommand::NavigateUp);
    assert_eq!(route_archived_view_key(KeyInput::Char('l')), ArchivedViewCommand::ColumnRight);
    assert_eq!(route_archived_view_key(KeyInput::Char('z')), ArchivedViewCommand::Nothing);
}

#[test]
fn error_log_keys() {
    assert_eq!(route_error_log_key(KeyInput::Char('q')), ErrorLogCommand::Close);
    assert_eq!(route_error_log_key(KeyInput::Char('j')), ErrorLogCommand::NavigateDown);
    assert_eq!(route_error_log_key(KeyInput::Up), ErrorLogCommand::NavigateUp);
    assert_eq!(route_error_log_key(KeyInput::Enter), ErrorLogCommand::Nothing);
}

#[test]
fn conflict_dialog_choices_reach_the_tick() {
    let keep = conflict_resolution_key(KeyInput::Char('o')).unwrap();
    assert_eq!(tick_task(keep.pending_key), (TickTask::ForceOverwrite, None));
    let take = conflict_resolution_key(KeyInput::Char('T')).unwrap();
    assert_eq!(tick_task(take.pending_key), (TickTask::ReloadFromDisk, None));
    assert_eq!(
        conflict_resolution_key(KeyInput::Esc),
        Some(DialogExit { pending_key: None, clear_conflict: true })
    );
    assert_eq!(conflict_resolution_key(KeyInput::Char('x')), None);
    let reload = external_change_key(KeyInput::Char('r')).unwrap();
    assert_eq!(tick_task(reload.pending_key), (TickTask::AutoReload, None));
    assert_eq!(
        external_change_key(KeyInput::Char('K')),
        Some(DialogExit { pending_key: None, clear_conflict: false })
    );
    assert_eq!(external_change_key(KeyInput::Enter), None);
}

#[test]
fn prefix_collision_warning() {
    assert_eq!(prefix_collision_key(KeyInput::Char('y')), Some(AppMode::SprintDetail));
    assert_eq!(prefix_collision_key(KeyInput::Esc), Some(AppMode::SprintDetail));
    assert_eq!(
        prefix_collision_key(KeyInput::Char('N')),
        Some(AppMode::Dialog(DialogMode::SetSprintPrefix))
    );
    assert_eq!(prefix_collision_key(KeyInput::Char('z')), None);
}

#[test]
fn column_name_dialog_keys() {
    assert_eq!(route_name_dialog_key(KeyInput::Esc), NameDialogCommand::Cancel);
    assert_eq!(route_name_dialog_key(KeyInput::Enter), NameDialogCommand::Submit);
    assert_eq!(route_name_dialog_key(KeyInput::Char('x')), NameDialogCommand::Insert('x'));
    assert_eq!(route_name_dialog_key(KeyInput::Backspace), NameDialogCommand::Backspace);
    assert_eq!(route_name_dialog_key(KeyInput::Left), NameDialogCommand::MoveLeft);
    assert_eq!(route_name_dialog_key(KeyInput::Right), NameDialogCommand::MoveRight);
    assert_eq!(route_name_dialog_key(KeyInput::Tab), NameDialogCommand::Nothing);
}

use kanban_tui::app_state::{AppMode, DialogMode, Focus};
use kanban_tui::key_router::{
    decide_quit, input_mode, quit_warning, route_key, KeyCommand, KeyRoute, QuitDecision, QuitGuard,
};
use kanban_tui::keys::KeyInput;

fn route(mode: &AppMode, focus: Focus, pending: Option<char>, key: KeyInput) -> KeyRoute {
    route_key(false, mode, focus, pending, key, false)
}

#[test]
fn banner_takes_the_key() {
    let r = route_key(true, &AppMode::Normal, Focus::Cards, Some('g'), KeyInput::Char('q'), false);
    assert_eq!(r, KeyRoute { command: KeyCommand::ClearBanner, pending_key: Some('g') });
}

#[test]
fn quit_outside_text_input() {
    assert_eq!(route(&AppMode::Normal, Focus::Boards, None, KeyInput::Char('q')).command, KeyCommand::Quit);
    assert_eq!(route(&AppMode::CardDetail, Focus::Boards, None, KeyInput::Char('Q')).command, KeyCommand::Quit);
    let typing = AppMode::Dialog(DialogMode::CreateCard);
    assert!(input_mode(&typing));
    assert_eq!(route(&typing, Focus::Cards, None, KeyInput::Char('q')).command, KeyCommand::ModeKey);
    assert_eq!(route(&typing, Focus::Cards, None, KeyInput::Char('?')).command, KeyCommand::ModeKey);
    assert_eq!(route(&AppMode::Search, Focus::Cards, None, KeyInput::Char('q')).command, KeyCommand::ModeKey);
    assert!(!input_mode(&AppMode::Dialog(DialogMode::SetCardPriority)));
}

#[test]
fn help_and_error_log() {
    assert_eq!(route(&AppMode::Normal, Focus::Boards, None, KeyInput::Char('?')).command, KeyCommand::OpenHelp);
    let help = AppMode::Help(Box::new(AppMode::Normal));
    assert_eq!(route(&help, Focus::Boards, None, KeyInput::Char('?')).command, KeyCommand::ModeKey);
    assert_eq!(route(&AppMode::Normal, Focus::Boards, None, KeyInput::F(12)).command, KeyCommand::OpenErrorLog);
    assert_eq!(route(&AppMode::ErrorLog, Focus::Boards, None, KeyInput::F(12)).command, KeyCommand::ModeKey);
    let typing = AppMode::Dialog(DialogMode::RenameBoard);
    assert_eq!(route(&typing, Focus::Boards, None, KeyInput::F(12)).command, KeyCommand::OpenErrorLog);
}

#[test]
fn gg_jumps_to_top() {
    let first = route(&AppMode::Normal, Focus::Cards, None, KeyInput::Char('g'));
    assert_eq!(first, KeyRoute { command: KeyCommand::Nothing, pending_key: Some('g') });
    let second = route(&AppMode::Normal, Focus::Cards, first.pending_key, KeyInput::Char('g'));
    assert_eq!(second, KeyRoute { command: KeyCommand::JumpToTop, pending_key: None });
    let other = route(&AppMode::Normal, Focus::Cards, Some('g'), KeyInput::Char('j'));
    assert_eq!(other, KeyRoute { command: KeyCommand::NavigateDown, pending_key: None });
}

#[test]
fn main_view_commands() {
    let n = |f, c| route(&AppMode::Normal, f, None, KeyInput::Char(c)).command;
    assert_eq!(n(Focus::Boards, 'n'), KeyCommand::CreateBoard);
    assert_eq!(n(Focus::Cards, 'n'), KeyCommand::CreateCard);
    assert_eq!(n(Focus::Boards, 'e'), KeyCommand::EditBoard);
    assert_eq!(n(Focus::Cards, 'e'), KeyCommand::EditCard);
    assert_eq!(n(Focus::Cards, '/'), KeyCommand::StartSearch);
    assert_eq!(n(Focus::Boards, '/'), KeyCommand::Nothing);
    assert_eq!(n(Focus::Cards, 's'), KeyCommand::ManageChildren);
    assert_eq!(n(Focus::Boards, 's'), KeyCommand::Nothing);
    assert_eq!(n(Focus::Boards, '1'), KeyCommand::ColumnOrFocusSwitch(0));
    assert_eq!(n(Focus::Boards, '9'), KeyCommand::ColumnOrFocusSwitch(8));
    assert_eq!(n(Focus::Boards, 'G'), KeyCommand::JumpToBottom);
    assert_eq!(n(Focus::Boards, 'x'), KeyCommand::ExportBoard);
    assert_eq!(n(Focus::Boards, 'X'), KeyCommand::ExportAll);
    assert_eq!(n(Focus::Boards, 'u'), KeyCommand::Undo);
    assert_eq!(n(Focus::Boards, 'U'), KeyCommand::Redo);
    assert_eq!(n(Focus::Boards, 'S'), KeyCommand::OpenSettings);
    assert_eq!(n(Focus::Boards, ' '), KeyCommand::ActivateSelection);
    assert_eq!(n(Focus::Boards, 'z'), KeyCommand::Nothing);
    assert_eq!(route(&AppMode::Normal, Focus::Boards, None, KeyInput::Esc).command, KeyCommand::Escape);
    assert_eq!(route(&AppMode::Normal, Focus::Boards, None, KeyInput::Enter).command, KeyCommand::ActivateSelection);
    let ctrl_a = route_key(false, &AppMode::Normal, Focus::Cards, Some('g'), KeyInput::Char('a'), true);
    assert_eq!(ctrl_a, KeyRoute { command: KeyCommand::SelectAllCardsInView, pending_key: None });
    assert_eq!(n(Focus::Cards, 'a'), KeyCommand::AssignToSprint);
    assert_eq!(route(&AppMode::SprintDetail, Focus::Cards, Some('g'), KeyInput::Char('a')),
        KeyRoute { command: KeyCommand::ModeKey, pending_key: Some('g') });
}

#[test]
fn quit_with_pending_work_asks_once() {
    let mut g = QuitGuard { quit_with_pending: false, quit_with_migration: false };
    let d = decide_quit(&mut g, true, false);
    assert_eq!(d, QuitDecision::ConfirmSaves);
    assert_eq!(
        quit_warning(d),
        Some("⏳ Saves pending... press 'q' again to force quit, or wait for completion")
    );
    assert_eq!(g, QuitGuard { quit_with_pending: true, quit_with_migration: true });
    assert_eq!(decide_quit(&mut g, true, true), QuitDecision::Quit);
    assert_eq!(quit_warning(QuitDecision::Quit), None);

    let mut both = QuitGuard { quit_with_pending: false, quit_with_migration: false };
    assert_eq!(decide_quit(&mut both, true, true), QuitDecision::ConfirmSavesAndMigration);
    let mut mig = QuitGuard { quit_with_pending: false, quit_with_migration: false };
    assert_eq!(decide_quit(&mut mig, false, true), QuitDecision::ConfirmMigration);
    assert_eq!(quit_warning(QuitDecision::ConfirmMigration), Some("Migration in progress... press 'q' again to abort and quit"));
    let mut idle = QuitGuard { quit_with_pending: false, quit_with_migration: false };
    assert_eq!(decide_quit(&mut idle, false, false), QuitDecision::Quit);
    assert_eq!(idle, QuitGuard { quit_with_pending: false, quit_with_migration: false });
}

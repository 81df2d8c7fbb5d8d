use vstd::prelude::*;
use crate::app_state::{AppMode, DialogMode, Focus};
use crate::keys::KeyInput;

verus! {

/// What the application does with a key press.
#[derive(Debug, Clone, Copy, PartialEq, Eq, Structural)]
pub enum KeyCommand {
    /// Dismiss the banner; the key does nothing else.
    ClearBanner,
    /// Quit (after the pending-work check of the quit key).
    Quit,
    OpenErrorLog,
    OpenHelp,
    SelectAllCardsInView,
    StartSearch,
    JumpToTop,
    JumpToBottom,
    JumpHalfViewportUp,
    JumpHalfViewportDown,
    CreateBoard,
    CreateCard,
    RenameBoard,
    EditBoard,
    EditCard,
    ExportBoard,
    ExportAll,
    ArchiveCard,
    ToggleArchivedCardsView,
    ImportBoard,
    AssignToSprint,
    ToggleCardCompletion,
    ManageChildren,
    OrderCards,
    ToggleSortOrder,
    OpenFilterDialog,
    ToggleSprintFilter,
    ToggleCardSelection,
    ToggleTaskListView,
    SetSelectedCardsPriority,
    MoveCardLeft,
    MoveCardRight,
    KanbanColumnLeft,
    KanbanColumnRight,
    /// Focus column `n` (or the panel `n` where there are no columns).
    ColumnOrFocusSwitch(usize),
    Escape,
    NavigateDown,
    NavigateUp,
    ActivateSelection,
    Undo,
    Redo,
    OpenSettings,
    /// Nothing happens.
    Nothing,
    /// The key belongs to the handler of the current view or dialog.
    ModeKey,
}

/// A routed key: the command and the key left pending for a two-key
/// sequence (`gg`).
#[derive(Debug, Clone, Copy, PartialEq, Eq, Structural)]
pub struct KeyRoute {
    pub command: KeyCommand,
    pub pending_key: Option<char>,
}

/// Views in which keys are typed into a text field, so that `q` and `?`
/// are text rather than commands.
pub open spec fn is_input_mode(mode: AppMode) -> bool {
    match mode {
        AppMode::Search => true,
        AppMode::Dialog(d) => d == DialogMode::CreateBoard || d == DialogMode::CreateCard || d
            == DialogMode::CreateSprint || d == DialogMode::RenameBoard || d
            == DialogMode::ExportBoard || d == DialogMode::ExportAll || d
            == DialogMode::SetCardPoints || d == DialogMode::SetBranchPrefix || d
            == DialogMode::CreateColumn || d == DialogMode::RenameColumn || d
            == DialogMode::SetSprintPrefix || d == DialogMode::SetSprintCardPrefix,
        _ => false,
    }
}

/// The command of character `c` in the main view (other than `g`).
pub open spec fn normal_char_command(c: char, focus: Focus) -> KeyCommand {
    if c == '/' {
        if focus == Focus::Cards { KeyCommand::StartSearch } else { KeyCommand::Nothing }
    } else if c == 'G' {
        KeyCommand::JumpToBottom
    } else if c == '{' {
        KeyCommand::JumpHalfViewportUp
    } else if c == '}' {
        KeyCommand::JumpHalfViewportDown
    } else if c == 'n' {
        if focus == Focus::Boards { KeyCommand::CreateBoard } else { KeyCommand::CreateCard }
    } else if c == 'r' {
        KeyCommand::RenameBoard
    } else if c == 'e' {
        if focus == Focus::Boards { KeyCommand::EditBoard } else { KeyCommand::EditCard }
    } else if c == 'x' {
        KeyCommand::ExportBoard
    } else if c == 'X' {
        KeyCommand::ExportAll
    } else if c == 'd' {
        KeyCommand::ArchiveCard
    } else if c == 'D' {
        KeyCommand::ToggleArchivedCardsView
    } else if c == 'i' {
        KeyCommand::ImportBoard
    } else if c == 'a' {
        KeyCommand::AssignToSprint
    } else if c == 'c' {
        KeyCommand::ToggleCardCompletion
    } else if c == 's' {
        if focus == Focus::Cards { KeyCommand::ManageChildren } else { KeyCommand::Nothing }
    } else if c == 'o' {
        KeyCommand::OrderCards
    } else if c == 'O' {
        KeyCommand::ToggleSortOrder
    } else if c == 'T' {
        KeyCommand::OpenFilterDialog
    } else if c == 't' {
        KeyCommand::ToggleSprintFilter
    } else if c == 'v' {
        KeyCommand::ToggleCardSelection
    } else if c == 'V' {
        KeyCommand::ToggleTaskListView
    } else if c == 'P' {
        KeyCommand::SetSelectedCardsPriority
    } else if c == 'H' {
        KeyCommand::MoveCardLeft
    } else if c == 'L' {
        KeyCommand::MoveCardRight
    } else if c == 'h' {
        KeyCommand::KanbanColumnLeft
    } else if c == 'l' {
        KeyCommand::KanbanColumnRight
    } else if '1' <= c && c <= '9' {
        KeyCommand::ColumnOrFocusSwitch((c as u32 - '1' as u32) as usize)
    } else if c == 'j' {
        KeyCommand::NavigateDown
    } else if c == 'k' {
        KeyCommand::NavigateUp
    } else if c == ' ' {
        KeyCommand::ActivateSelection
    } else if c == 'u' {
        KeyCommand::Undo
    } else if c == 'U' {
        KeyCommand::Redo
    } else if c == 'S' {
        KeyCommand::OpenSettings
    } else {
        KeyCommand::Nothing
    }
}

/// A key in the main view. `g` waits for a second `g` (which jumps to the
/// top); every other key clears a waiting `g`.
pub open spec fn normal_route(key: KeyInput, focus: Focus, pending: Option<char>) -> KeyRoute {
    match key {
        KeyInput::Char(c) => if c == 'g' {
            if pending == Some('g') {
                KeyRoute { command: KeyCommand::JumpToTop, pending_key: None }
            } else {
                KeyRoute { command: KeyCommand::Nothing, pending_key: Some('g') }
            }
        } else {
            KeyRoute { command: normal_char_command(c, focus), pending_key: None }
        },
        KeyInput::Esc => KeyRoute { command: KeyCommand::Escape, pending_key: None },
        KeyInput::Down => KeyRoute { command: KeyCommand::NavigateDown, pending_key: None },
        KeyInput::Up => KeyRoute { command: KeyCommand::NavigateUp, pending_key: None },
        KeyInput::Enter => KeyRoute { command: KeyCommand::ActivateSelection, pending_key: None },
        _ => KeyRoute { command: KeyCommand::Nothing, pending_key: None },
    }
}

/// How a key is routed: a shown banner takes the key; outside text input
/// `q`/`Q` quit and `?` opens the help (unless it is open); F12 opens the
/// error log (unless it is open); Ctrl-a in the main view selects every
/// card shown; other keys of the main view follow `normal_route`, and in
/// every other view the key goes to that view's handler.
pub open spec fn route(
    banner_shown: bool,
    mode: AppMode,
    focus: Focus,
    pending: Option<char>,
    key: KeyInput,
    ctrl: bool,
) -> KeyRoute {
    let input = is_input_mode(mode);
    if banner_shown {
        KeyRoute { command: KeyCommand::ClearBanner, pending_key: pending }
    } else if (key == KeyInput::Char('q') || key == KeyInput::Char('Q')) && !input {
        KeyRoute { command: KeyCommand::Quit, pending_key: pending }
    } else if key == KeyInput::F(12) && mode != AppMode::ErrorLog {
        KeyRoute { command: KeyCommand::OpenErrorLog, pending_key: pending }
    } else if key == KeyInput::Char('?') && !input && !(mode is Help) {
        KeyRoute { command: KeyCommand::OpenHelp, pending_key: pending }
    } else if mode == AppMode::Normal && ctrl && key == KeyInput::Char('a') {
        KeyRoute { command: KeyCommand::SelectAllCardsInView, pending_key: None }
    } else if mode == AppMode::Normal {
        normal_route(key, focus, pending)
    } else {
        KeyRoute { command: KeyCommand::ModeKey, pending_key: pending }
    }
}

/// Whether keys in `mode` are typed into a text field.
pub fn input_mode(mode: &AppMode) -> (r: bool)
    ensures
        r == is_input_mode(*mode),
{
    match mode {
        AppMode::Search => true,
        AppMode::Dialog(d) => match d {
            DialogMode::CreateBoard | DialogMode::CreateCard | DialogMode::CreateSprint
            | DialogMode::RenameBoard | DialogMode::ExportBoard | DialogMode::ExportAll
            | DialogMode::SetCardPoints | DialogMode::SetBranchPrefix | DialogMode::CreateColumn
            | DialogMode::RenameColumn | DialogMode::SetSprintPrefix
            | DialogMode::SetSprintCardPrefix => true,
            _ => false,
        },
        _ => false,
    }
}

fn char_command(c: char, focus: Focus) -> (r: KeyCommand)
    ensures
        r == normal_char_command(c, focus),
        c == 'H' ==> r == KeyCommand::MoveCardLeft,
        c == 'L' ==> r == KeyCommand::MoveCardRight,
        c == 'h' ==> r == KeyCommand::KanbanColumnLeft,
        c == 'l' ==> r == KeyCommand::KanbanColumnRight,
{
    if c == '/' {
        if focus == Focus::Cards { KeyCommand::StartSearch } else { KeyCommand::Nothing }
    } else if c == 'G' {
        KeyCommand::JumpToBottom
    } else if c == '{' {
        KeyCommand::JumpHalfViewportUp
    } else if c == '}' {
        KeyCommand::JumpHalfViewportDown
    } else if c == 'n' {
        if focus == Focus::Boards { KeyCommand::CreateBoard } else { KeyCommand::CreateCard }
    } else if c == 'r' {
        KeyCommand::RenameBoard
    } else if c == 'e' {
        if focus == Focus::Boards { KeyCommand::EditBoard } else { KeyCommand::EditCard }
    } else if c == 'x' {
        KeyCommand::ExportBoard
    } else if c == 'X' {
        KeyCommand::ExportAll
    } else if c == 'd' {
        KeyCommand::ArchiveCard
    } else if c == 'D' {
        KeyCommand::ToggleArchivedCardsView
    } else if c == 'i' {
        KeyCommand::ImportBoard
    } else if c == 'a' {
        KeyCommand::AssignToSprint
    } else if c == 'c' {
        KeyCommand::ToggleCardCompletion
    } else if c == 's' {
        if focus == Focus::Cards { KeyCommand::ManageChildren } else { KeyCommand::Nothing }
    } else if c == 'o' {
        KeyCommand::OrderCards
    } else if c == 'O' {
        KeyCommand::ToggleSortOrder
    } else if c == 'T' {
        KeyCommand::OpenFilterDialog
    } else if c == 't' {
        KeyCommand::ToggleSprintFilter
    } else if c == 'v' {
        KeyCommand::ToggleCardSelection
    } else if c == 'V' {
        KeyCommand::ToggleTaskListView
    } else if c == 'P' {
        KeyCommand::SetSelectedCardsPriority
    } else if c == 'H' {
        KeyCommand::MoveCardLeft
    } else if c == 'L' {
        KeyCommand::MoveCardRight
    } else if c == 'h' {
        KeyCommand::KanbanColumnLeft
    } else if c == 'l' {
        KeyCommand::KanbanColumnRight
    } else if '1' <= c && c <= '9' {
        KeyCommand::ColumnOrFocusSwitch((c as u32 - 49) as usize)
    } else if c == 'j' {
        KeyCommand::NavigateDown
    } else if c == 'k' {
        KeyCommand::NavigateUp
    } else if c == ' ' {
        KeyCommand::ActivateSelection
    } else if c == 'u' {
        KeyCommand::Undo
    } else if c == 'U' {
        KeyCommand::Redo
    } else if c == 'S' {
        KeyCommand::OpenSettings
    } else {
        KeyCommand::Nothing
    }
}

/// Routes a key press given whether a banner is shown, the current view,
/// the focused panel, the key waiting for a second key, and whether Ctrl
/// was held.
pub fn route_key(
    banner_shown: bool,
    mode: &AppMode,
    focus: Focus,
    pending_key: Option<char>,
    key: KeyInput,
    ctrl: bool,
) -> (r: KeyRoute)
    ensures
        r == route(banner_shown, *mode, focus, pending_key, key, ctrl),
        !banner_shown && *mode == AppMode::Normal && key == KeyInput::Char('H') ==> r == (KeyRoute {
            command: KeyCommand::MoveCardLeft,
            pending_key: None,
        }),
        !banner_shown && *mode == AppMode::Normal && key == KeyInput::Char('L') ==> r == (KeyRoute {
            command: KeyCommand::MoveCardRight,
            pending_key: None,
        }),
        !banner_shown && *mode == AppMode::Normal && key == KeyInput::Char('h') ==> r == (KeyRoute {
            command: KeyCommand::KanbanColumnLeft,
            pending_key: None,
        }),
        !banner_shown && *mode == AppMode::Normal && key == KeyInput::Char('l') ==> r == (KeyRoute {
            command: KeyCommand::KanbanColumnRight,
            pending_key: None,
        }),
{
    let input = input_mode(mode);
    if banner_shown {
        return KeyRoute { command: KeyCommand::ClearBanner, pending_key };
    }
    if (key == KeyInput::Char('q') || key == KeyInput::Char('Q')) && !input {
        return KeyRoute { command: KeyCommand::Quit, pending_key };
    }
    let error_log_open = match mode {
        AppMode::ErrorLog => true,
        _ => false,
    };
    if key == KeyInput::F(12) && !error_log_open {
        return KeyRoute { command: KeyCommand::OpenErrorLog, pending_key };
    }
    let help_open = match mode {
        AppMode::Help(_) => true,
        _ => false,
    };
    if key == KeyInput::Char('?') && !input && !help_open {
        return KeyRoute { command: KeyCommand::OpenHelp, pending_key };
    }
    let normal = match mode {
        AppMode::Normal => true,
        _ => false,
    };
    if !normal {
        return KeyRoute { command: KeyCommand::ModeKey, pending_key };
    }
    if ctrl && key == KeyInput::Char('a') {
        return KeyRoute { command: KeyCommand::SelectAllCardsInView, pending_key: None };
    }
    match key {
        KeyInput::Char(c) => {
            if c == 'g' {
                if pending_key == Some('g') {
                    KeyRoute { command: KeyCommand::JumpToTop, pending_key: None }
                } else {
                    KeyRoute { command: KeyCommand::Nothing, pending_key: Some('g') }
                }
            } else {
                KeyRoute { command: char_command(c, focus), pending_key: None }
            }
        },
        KeyInput::Esc => KeyRoute { command: KeyCommand::Escape, pending_key: None },
        KeyInput::Down => KeyRoute { command: KeyCommand::NavigateDown, pending_key: None },
        KeyInput::Up => KeyRoute { command: KeyCommand::NavigateUp, pending_key: None },
        KeyInput::Enter => KeyRoute { command: KeyCommand::ActivateSelection, pending_key: None },
        _ => KeyRoute { command: KeyCommand::Nothing, pending_key: None },
    }
}

/// In the main view, with no banner shown and whatever panel has the focus,
/// Shift-h moves the card to the left column and Shift-l to the right one,
/// while plain h and l move between columns of the column view; none of
/// these keys leaves a key waiting.
pub proof fn lemma_move_keys(focus: Focus, pending: Option<char>, ctrl: bool)
    ensures
        route(false, AppMode::Normal, focus, pending, KeyInput::Char('H'), ctrl) == (KeyRoute {
            command: KeyCommand::MoveCardLeft,
            pending_key: None,
        }),
        route(false, AppMode::Normal, focus, pending, KeyInput::Char('L'), ctrl) == (KeyRoute {
            command: KeyCommand::MoveCardRight,
            pending_key: None,
        }),
        route(false, AppMode::Normal, focus, pending, KeyInput::Char('h'), ctrl) == (KeyRoute {
            command: KeyCommand::KanbanColumnLeft,
            pending_key: None,
        }),
        route(false, AppMode::Normal, focus, pending, KeyInput::Char('l'), ctrl) == (KeyRoute {
            command: KeyCommand::KanbanColumnRight,
            pending_key: None,
        }),
{
}

/// Pressing `g` twice in the main view jumps to the top: the first `g`
/// waits, the second jumps and clears the wait.
pub proof fn lemma_gg_jumps_to_top(focus: Focus, pending: Option<char>)
    requires
        pending != Some('g'),
    ensures
        ({
            let first = route(false, AppMode::Normal, focus, pending, KeyInput::Char('g'), false);
            let second = route(false, AppMode::Normal, focus, first.pending_key, KeyInput::Char('g'), false);
            &&& first.command == KeyCommand::Nothing
            &&& second.command == KeyCommand::JumpToTop
            &&& second.pending_key is None
        }),
{
}

/// Any key of the main view other than `g` (and keys taken before the view
/// sees them) leaves no key waiting.
pub proof fn lemma_other_keys_clear_pending(focus: Focus, pending: Option<char>, key: KeyInput, ctrl: bool)
    requires
        key != KeyInput::Char('g'),
        key != KeyInput::Char('q'),
        key != KeyInput::Char('Q'),
        key != KeyInput::Char('?'),
        key != KeyInput::F(12),
    ensures
        route(false, AppMode::Normal, focus, pending, key, ctrl).pending_key is None,
{
}

/// While text is being typed, a character key without Ctrl is text for the
/// field: it never quits or opens the help.
pub proof fn lemma_input_modes_take_characters(mode: AppMode, focus: Focus, pending: Option<char>, c: char)
    requires
        is_input_mode(mode),
    ensures
        route(false, mode, focus, pending, KeyInput::Char(c), false) == (KeyRoute {
            command: KeyCommand::ModeKey,
            pending_key: pending,
        }),
{
}

/// A shown banner takes the key, whatever it is, and keeps a waiting key.
pub proof fn lemma_banner_takes_any_key(
    mode: AppMode,
    focus: Focus,
    pending: Option<char>,
    key: KeyInput,
    ctrl: bool,
)
    ensures
        route(true, mode, focus, pending, key, ctrl) == (KeyRoute {
            command: KeyCommand::ClearBanner,
            pending_key: pending,
        }),
{
}

/// What the quit key leads to: quitting, or a warning that asks for a second
/// press because saves are pending, a migration is running, or both.
#[derive(Debug, Clone, Copy, PartialEq, Eq, Structural)]
pub enum QuitDecision {
    Quit,
    ConfirmSavesAndMigration,
    ConfirmSaves,
    ConfirmMigration,
}

/// Whether the user has already been warned about pending saves and about a
/// running migration (the next quit key then quits).
#[derive(Debug, Clone, Copy, PartialEq, Eq, Structural)]
pub struct QuitGuard {
    pub quit_with_pending: bool,
    pub quit_with_migration: bool,
}

/// The decision of the quit key for the guard `g`.
pub open spec fn quit_decision(g: QuitGuard, has_pending_saves: bool, migrating: bool) -> QuitDecision {
    let saves = has_pending_saves && !g.quit_with_pending;
    let migration = migrating && !g.quit_with_migration;
    if saves && migration {
        QuitDecision::ConfirmSavesAndMigration
    } else if saves {
        QuitDecision::ConfirmSaves
    } else if migration {
        QuitDecision::ConfirmMigration
    } else {
        QuitDecision::Quit
    }
}

/// Decides the quit key: with saves pending or a migration running that the
/// user was not warned about, warn (and remember the warning for both);
/// otherwise quit.
pub fn decide_quit(guard: &mut QuitGuard, has_pending_saves: bool, migrating: bool) -> (d: QuitDecision)
    ensures
        d == quit_decision(*old(guard), has_pending_saves, migrating),
        d != QuitDecision::Quit ==> *final(guard) == (QuitGuard {
            quit_with_pending: true,
            quit_with_migration: true,
        }),
        d == QuitDecision::Quit ==> *final(guard) == *old(guard),
{
    let saves = has_pending_saves && !guard.quit_with_pending;
    let migration = migrating && !guard.quit_with_migration;
    if saves || migration {
        guard.quit_with_pending = true;
        guard.quit_with_migration = true;
        if saves && migration {
            QuitDecision::ConfirmSavesAndMigration
        } else if saves {
            QuitDecision::ConfirmSaves
        } else {
            QuitDecision::ConfirmMigration
        }
    } else {
        QuitDecision::Quit
    }
}

/// The warning shown for a decision that asks for confirmation.
pub fn quit_warning(d: QuitDecision) -> (r: Option<&'static str>)
    ensures
        (r is None) == (d == QuitDecision::Quit),
        d == QuitDecision::ConfirmSavesAndMigration ==> r == Some(
            "⏳ Saves pending and migration in progress... press 'q' again to force quit",
        ),
        d == QuitDecision::ConfirmSaves ==> r == Some(
            "⏳ Saves pending... press 'q' again to force quit, or wait for completion",
        ),
        d == QuitDecision::ConfirmMigration ==> r == Some(
            "Migration in progress... press 'q' again to abort and quit",
        ),
{
    match d {
        QuitDecision::Quit => None,
        QuitDecision::ConfirmSavesAndMigration => Some(
            "⏳ Saves pending and migration in progress... press 'q' again to force quit",
        ),
        QuitDecision::ConfirmSaves => Some(
            "⏳ Saves pending... press 'q' again to force quit, or wait for completion",
        ),
        QuitDecision::ConfirmMigration => Some(
            "Migration in progress... press 'q' again to abort and quit",
        ),
    }
}

/// The quit key never has to be pressed more than twice: after a warning,
/// the next press quits, whatever is pending then.
pub proof fn lemma_second_quit_press_quits(
    g: QuitGuard,
    has_pending_saves: bool,
    migrating: bool,
    still_pending: bool,
    still_migrating: bool,
)
    requires
        quit_decision(g, has_pending_saves, migrating) != QuitDecision::Quit,
    ensures
        quit_decision(
            QuitGuard { quit_with_pending: true, quit_with_migration: true },
            still_pending,
            still_migrating,
        ) == QuitDecision::Quit,
{
}

} // verus!

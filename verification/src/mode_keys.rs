use vstd::prelude::*;
use crate::keys::KeyInput;

verus! {

/// What a key does while searching.
#[derive(Debug, Clone, Copy, PartialEq, Eq, Structural)]
pub enum SearchCommand {
    /// Type the character into the query.
    Insert(char),
    /// Delete the last character of the query.
    Backspace,
    /// Keep the query and return to the main view.
    Finish,
    /// Drop the search and return to the main view.
    Cancel,
    Nothing,
}

/// See `SearchCommand`.
pub fn route_search_key(key: KeyInput) -> (r: SearchCommand)
    ensures
        r == (match key {
            KeyInput::Char(c) => SearchCommand::Insert(c),
            KeyInput::Backspace => SearchCommand::Backspace,
            KeyInput::Enter => SearchCommand::Finish,
            KeyInput::Esc => SearchCommand::Cancel,
            _ => SearchCommand::Nothing,
        }),
{
    match key {
        KeyInput::Char(c) => SearchCommand::Insert(c),
        KeyInput::Backspace => SearchCommand::Backspace,
        KeyInput::Enter => SearchCommand::Finish,
        KeyInput::Esc => SearchCommand::Cancel,
        _ => SearchCommand::Nothing,
    }
}

/// What a key does in the archived-cards view.
#[derive(Debug, Clone, Copy, PartialEq, Eq, Structural)]
pub enum ArchivedViewCommand {
    Restore,
    DeletePermanently,
    /// Leave the archived view.
    Close,
    ToggleCardSelection,
    ToggleTaskListView,
    ColumnLeft,
    ColumnRight,
    NavigateDown,
    NavigateUp,
    Nothing,
}

/// The command of `key` in the archived-cards view.
pub open spec fn archived_view_command(key: KeyInput) -> ArchivedViewCommand {
    match key {
        KeyInput::Esc => ArchivedViewCommand::Close,
        KeyInput::Down => ArchivedViewCommand::NavigateDown,
        KeyInput::Up => ArchivedViewCommand::NavigateUp,
        KeyInput::Char(c) => if c == 'r' {
            ArchivedViewCommand::Restore
        } else if c == 'x' {
            ArchivedViewCommand::DeletePermanently
        } else if c == 'q' || c == 'Q' {
            ArchivedViewCommand::Close
        } else if c == 'v' {
            ArchivedViewCommand::ToggleCardSelection
        } else if c == 'V' {
            ArchivedViewCommand::ToggleTaskListView
        } else if c == 'h' {
            ArchivedViewCommand::ColumnLeft
        } else if c == 'l' {
            ArchivedViewCommand::ColumnRight
        } else if c == 'j' {
            ArchivedViewCommand::NavigateDown
        } else if c == 'k' {
            ArchivedViewCommand::NavigateUp
        } else {
            ArchivedViewCommand::Nothing
        },
        _ => ArchivedViewCommand::Nothing,
    }
}

/// See `archived_view_command`.
pub fn route_archived_view_key(key: KeyInput) -> (r: ArchivedViewCommand)
    ensures
        r == archived_view_command(key),
{
    match key {
        KeyInput::Esc => ArchivedViewCommand::Close,
        KeyInput::Down => ArchivedViewCommand::NavigateDown,
        KeyInput::Up => ArchivedViewCommand::NavigateUp,
        KeyInput::Char(c) => if c == 'r' {
            ArchivedViewCommand::Restore
        } else if c == 'x' {
            ArchivedViewCommand::DeletePermanently
        } else if c == 'q' || c == 'Q' {
            ArchivedViewCommand::Close
        } else if c == 'v' {
            ArchivedViewCommand::ToggleCardSelection
        } else if c == 'V' {
            ArchivedViewCommand::ToggleTaskListView
        } else if c == 'h' {
            ArchivedViewCommand::ColumnLeft
        } else if c == 'l' {
            ArchivedViewCommand::ColumnRight
        } else if c == 'j' {
            ArchivedViewCommand::NavigateDown
        } else if c == 'k' {
            ArchivedViewCommand::NavigateUp
        } else {
            ArchivedViewCommand::Nothing
        },
        _ => ArchivedViewCommand::Nothing,
    }
}

/// What a key does in the error log.
#[derive(Debug, Clone, Copy, PartialEq, Eq, Structural)]
pub enum ErrorLogCommand {
    Close,
    NavigateDown,
    NavigateUp,
    Nothing,
}

/// See `ErrorLogCommand`: Esc and `q` close the log, `j`/`k` and the arrows
/// move in it.
pub fn route_error_log_key(key: KeyInput) -> (r: ErrorLogCommand)
    ensures
        r == (if key == KeyInput::Esc || key == KeyInput::Char('q') {
            ErrorLogCommand::Close
        } else if key == KeyInput::Char('j') || key == KeyInput::Down {
            ErrorLogCommand::NavigateDown
        } else if key == KeyInput::Char('k') || key == KeyInput::Up {
            ErrorLogCommand::NavigateUp
        } else {
            ErrorLogCommand::Nothing
        }),
{
    if key == KeyInput::Esc || key == KeyInput::Char('q') {
        ErrorLogCommand::Close
    } else if key == KeyInput::Char('j') || key == KeyInput::Down {
        ErrorLogCommand::NavigateDown
    } else if key == KeyInput::Char('k') || key == KeyInput::Up {
        ErrorLogCommand::NavigateUp
    } else {
        ErrorLogCommand::Nothing
    }
}

/// What a key does in the column name dialogs (create and rename).
#[derive(Debug, Clone, Copy, PartialEq, Eq, Structural)]
pub enum NameDialogCommand {
    /// Type the character at the cursor.
    Insert(char),
    /// Delete the character before the cursor.
    Backspace,
    MoveLeft,
    MoveRight,
    /// Apply the name, close the dialog and return to the board's columns.
    Submit,
    /// Close the dialog without a change and return to the board's columns.
    Cancel,
    Nothing,
}

/// See `NameDialogCommand`.
pub fn route_name_dialog_key(key: KeyInput) -> (r: NameDialogCommand)
    ensures
        r == (match key {
            KeyInput::Esc => NameDialogCommand::Cancel,
            KeyInput::Enter => NameDialogCommand::Submit,
            KeyInput::Char(c) => NameDialogCommand::Insert(c),
            KeyInput::Backspace => NameDialogCommand::Backspace,
            KeyInput::Left => NameDialogCommand::MoveLeft,
            KeyInput::Right => NameDialogCommand::MoveRight,
            _ => NameDialogCommand::Nothing,
        }),
{
    match key {
        KeyInput::Esc => NameDialogCommand::Cancel,
        KeyInput::Enter => NameDialogCommand::Submit,
        KeyInput::Char(c) => NameDialogCommand::Insert(c),
        KeyInput::Backspace => NameDialogCommand::Backspace,
        KeyInput::Left => NameDialogCommand::MoveLeft,
        KeyInput::Right => NameDialogCommand::MoveRight,
        _ => NameDialogCommand::Nothing,
    }
}

} // verus!

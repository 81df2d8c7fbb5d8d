use vstd::prelude::*;
use crate::app_state::BoardFocus;
use crate::keys::KeyInput;
use crate::selection::{SelectionState, spec_next, spec_prev};

verus! {

/// Cursor state of the board detail view: the focused panel and the
/// selected rows of the sprint and column lists.
#[derive(Debug, Clone, Copy, PartialEq, Eq, Structural)]
pub struct BoardDetailNav {
    pub focus: BoardFocus,
    pub sprint_selection: SelectionState,
    pub column_selection: SelectionState,
}

/// Number of sprints and of columns of the board shown, when a board is
/// selected.
#[derive(Debug, Clone, Copy, PartialEq, Eq, Structural)]
pub struct BoardCounts {
    pub sprints: usize,
    pub columns: usize,
}

/// What a key does in the board detail view.
#[derive(Debug, Clone, Copy, PartialEq, Eq, Structural)]
pub enum BoardDetailCommand {
    Close,
    Focus(BoardFocus),
    EditName,
    EditDescription,
    EditSettings,
    CreateSprint,
    CreateColumn,
    RenameColumn,
    DeleteColumn,
    MoveColumnDown,
    MoveColumnUp,
    NavigateDown,
    NavigateUp,
    OpenSprint,
    SetBranchPrefix,
    Nothing,
}

pub open spec fn sel_row(s: SelectionState) -> usize {
    match s.selected {
        Some(i) => i,
        None => 0,
    }
}

/// The state after moving down. Past the last sprint the cursor enters the
/// columns; past the last column it returns to the name. The text panels
/// step to the next panel.
pub open spec fn board_nav_down(s: BoardDetailNav, counts: Option<BoardCounts>) -> BoardDetailNav {
    match s.focus {
        BoardFocus::Sprints => match counts {
            None => s,
            Some(c) => if c.sprints == 0 || sel_row(s.sprint_selection) >= c.sprints - 1 {
                BoardDetailNav { focus: BoardFocus::Columns, column_selection: SelectionState { selected: Some(0) }, ..s }
            } else {
                BoardDetailNav { sprint_selection: SelectionState { selected: spec_next(s.sprint_selection.selected, c.sprints) }, ..s }
            },
        },
        BoardFocus::Columns => match counts {
            None => s,
            Some(c) => if c.columns > 0 && sel_row(s.column_selection) >= c.columns - 1 {
                BoardDetailNav { focus: BoardFocus::Name, sprint_selection: SelectionState { selected: Some(0) }, ..s }
            } else {
                BoardDetailNav { column_selection: SelectionState { selected: spec_next(s.column_selection.selected, c.columns) }, ..s }
            },
        },
        BoardFocus::Name => BoardDetailNav { focus: BoardFocus::Description, ..s },
        BoardFocus::Description => BoardDetailNav { focus: BoardFocus::Settings, ..s },
        BoardFocus::Settings => BoardDetailNav { focus: BoardFocus::Sprints, sprint_selection: SelectionState { selected: Some(0) }, ..s },
    }
}

/// The state after moving up. Above the first sprint the cursor goes to the
/// settings; above the first column to the last sprint (or the settings
/// when there are no sprints); above the name round to the first column.
pub open spec fn board_nav_up(s: BoardDetailNav, counts: Option<BoardCounts>) -> BoardDetailNav {
    match s.focus {
        BoardFocus::Sprints => if sel_row(s.sprint_selection) == 0 {
            BoardDetailNav { focus: BoardFocus::Settings, ..s }
        } else {
            BoardDetailNav { sprint_selection: SelectionState { selected: spec_prev(s.sprint_selection.selected) }, ..s }
        },
        BoardFocus::Columns => if sel_row(s.column_selection) == 0 {
            let sprints: usize = match counts {
                Some(c) => c.sprints,
                None => 0,
            };
            if sprints == 0 {
                BoardDetailNav { focus: BoardFocus::Settings, ..s }
            } else {
                BoardDetailNav { focus: BoardFocus::Sprints, sprint_selection: SelectionState { selected: Some((sprints - 1) as usize) }, ..s }
            }
        } else {
            BoardDetailNav { column_selection: SelectionState { selected: spec_prev(s.column_selection.selected) }, ..s }
        },
        BoardFocus::Name => BoardDetailNav { focus: BoardFocus::Columns, column_selection: SelectionState { selected: Some(0) }, ..s },
        BoardFocus::Description => BoardDetailNav { focus: BoardFocus::Name, ..s },
        BoardFocus::Settings => BoardDetailNav { focus: BoardFocus::Description, ..s },
    }
}

/// The command of `key` with `focus` on the given panel.
pub open spec fn board_detail_command(key: KeyInput, focus: BoardFocus) -> BoardDetailCommand {
    match key {
        KeyInput::Esc => BoardDetailCommand::Close,
        KeyInput::Down => BoardDetailCommand::NavigateDown,
        KeyInput::Up => BoardDetailCommand::NavigateUp,
        KeyInput::Enter => if focus == BoardFocus::Sprints { BoardDetailCommand::OpenSprint } else { BoardDetailCommand::Nothing },
        KeyInput::Char(c) => if c == '1' {
            BoardDetailCommand::Focus(BoardFocus::Name)
        } else if c == '2' {
            BoardDetailCommand::Focus(BoardFocus::Description)
        } else if c == '3' {
            BoardDetailCommand::Focus(BoardFocus::Settings)
        } else if c == '4' {
            BoardDetailCommand::Focus(BoardFocus::Sprints)
        } else if c == '5' {
            BoardDetailCommand::Focus(BoardFocus::Columns)
        } else if c == 'e' {
            match focus {
                BoardFocus::Name => BoardDetailCommand::EditName,
                BoardFocus::Description => BoardDetailCommand::EditDescription,
                BoardFocus::Settings => BoardDetailCommand::EditSettings,
                _ => BoardDetailCommand::Nothing,
            }
        } else if c == 'n' || c == 's' {
            if focus == BoardFocus::Sprints {
                BoardDetailCommand::CreateSprint
            } else if focus == BoardFocus::Columns && c == 'n' {
                BoardDetailCommand::CreateColumn
            } else {
                BoardDetailCommand::Nothing
            }
        } else if c == 'j' {
            BoardDetailCommand::NavigateDown
        } else if c == 'k' {
            BoardDetailCommand::NavigateUp
        } else if c == ' ' {
            if focus == BoardFocus::Sprints { BoardDetailCommand::OpenSprint } else { BoardDetailCommand::Nothing }
        } else if c == 'p' {
            if focus == BoardFocus::Settings { BoardDetailCommand::SetBranchPrefix } else { BoardDetailCommand::Nothing }
        } else if focus != BoardFocus::Columns {
            BoardDetailCommand::Nothing
        } else if c == 'r' {
            BoardDetailCommand::RenameColumn
        } else if c == 'd' {
            BoardDetailCommand::DeleteColumn
        } else if c == 'J' {
            BoardDetailCommand::MoveColumnDown
        } else if c == 'K' {
            BoardDetailCommand::MoveColumnUp
        } else {
            BoardDetailCommand::Nothing
        },
        _ => BoardDetailCommand::Nothing,
    }
}

/// In the board detail view `e` edits the focused section: the name on
/// the name, the description on the description, the settings on the
/// settings; on the sprint and column lists it does nothing.
pub proof fn lemma_edit_key_edits_the_focused_panel()
    ensures
        board_detail_command(KeyInput::Char('e'), BoardFocus::Name) == BoardDetailCommand::EditName,
        board_detail_command(KeyInput::Char('e'), BoardFocus::Description) == BoardDetailCommand::EditDescription,
        board_detail_command(KeyInput::Char('e'), BoardFocus::Settings) == BoardDetailCommand::EditSettings,
        board_detail_command(KeyInput::Char('e'), BoardFocus::Sprints) == BoardDetailCommand::Nothing,
        board_detail_command(KeyInput::Char('e'), BoardFocus::Columns) == BoardDetailCommand::Nothing,
{
}

/// What `key` does in the board detail view with `focus` on a panel.
pub fn route_board_detail_key(key: KeyInput, focus: BoardFocus) -> (r: BoardDetailCommand)
    ensures
        r == board_detail_command(key, focus),
        key == KeyInput::Char('e') ==> r == (match focus {
            BoardFocus::Name => BoardDetailCommand::EditName,
            BoardFocus::Description => BoardDetailCommand::EditDescription,
            BoardFocus::Settings => BoardDetailCommand::EditSettings,
            _ => BoardDetailCommand::Nothing,
        }),
{
    match key {
        KeyInput::Esc => BoardDetailCommand::Close,
        KeyInput::Down => BoardDetailCommand::NavigateDown,
        KeyInput::Up => BoardDetailCommand::NavigateUp,
        KeyInput::Enter => if focus == BoardFocus::Sprints { BoardDetailCommand::OpenSprint } else { BoardDetailCommand::Nothing },
        KeyInput::Char(c) => if c == '1' {
            BoardDetailCommand::Focus(BoardFocus::Name)
        } else if c == '2' {
            BoardDetailCommand::Focus(BoardFocus::Description)
        } else if c == '3' {
            BoardDetailCommand::Focus(BoardFocus::Settings)
        } else if c == '4' {
            BoardDetailCommand::Focus(BoardFocus::Sprints)
        } else if c == '5' {
            BoardDetailCommand::Focus(BoardFocus::Columns)
        } else if c == 'e' {
            match focus {
                BoardFocus::Name => BoardDetailCommand::EditName,
                BoardFocus::Description => BoardDetailCommand::EditDescription,
                BoardFocus::Settings => BoardDetailCommand::EditSettings,
                _ => BoardDetailCommand::Nothing,
            }
        } else if c == 'n' || c == 's' {
            if focus == BoardFocus::Sprints {
                BoardDetailCommand::CreateSprint
            } else if focus == BoardFocus::Columns && c == 'n' {
                BoardDetailCommand::CreateColumn
            } else {
                BoardDetailCommand::Nothing
            }
        } else if c == 'j' {
            BoardDetailCommand::NavigateDown
        } else if c == 'k' {
            BoardDetailCommand::NavigateUp
        } else if c == ' ' {
            if focus == BoardFocus::Sprints { BoardDetailCommand::OpenSprint } else { BoardDetailCommand::Nothing }
        } else if c == 'p' {
            if focus == BoardFocus::Settings { BoardDetailCommand::SetBranchPrefix } else { BoardDetailCommand::Nothing }
        } else if focus != BoardFocus::Columns {
            BoardDetailCommand::Nothing
        } else if c == 'r' {
            BoardDetailCommand::RenameColumn
        } else if c == 'd' {
            BoardDetailCommand::DeleteColumn
        } else if c == 'J' {
            BoardDetailCommand::MoveColumnDown
        } else if c == 'K' {
            BoardDetailCommand::MoveColumnUp
        } else {
            BoardDetailCommand::Nothing
        },
        _ => BoardDetailCommand::Nothing,
    }
}

impl BoardDetailNav {
    /// Moves the board-detail cursor down; `counts` are the selected board's
    /// sprint and column counts (none without a selected board).
    pub fn navigate_down(&mut self, counts: Option<BoardCounts>)
        ensures
            *final(self) == board_nav_down(*old(self), counts),
    {
        match self.focus {
            BoardFocus::Sprints => {
                if let Some(c) = counts {
                    let current = match self.sprint_selection.get() {
                        Some(i) => i,
                        None => 0,
                    };
                    if c.sprints == 0 || current >= c.sprints - 1 {
                        self.focus = BoardFocus::Columns;
                        self.column_selection.set(Some(0));
                    } else {
                        self.sprint_selection.next(c.sprints);
                    }
                }
            },
            BoardFocus::Columns => {
                if let Some(c) = counts {
                    let current = match self.column_selection.get() {
                        Some(i) => i,
                        None => 0,
                    };
                    if c.columns > 0 && current >= c.columns - 1 {
                        self.focus = BoardFocus::Name;
                        self.sprint_selection.set(Some(0));
                    } else {
                        self.column_selection.next(c.columns);
                    }
                }
            },
            BoardFocus::Name => {
                self.focus = BoardFocus::Description;
            },
            BoardFocus::Description => {
                self.focus = BoardFocus::Settings;
            },
            BoardFocus::Settings => {
                self.focus = BoardFocus::Sprints;
                self.sprint_selection.set(Some(0));
            },
        }
    }

    /// Moves the board-detail cursor up; `counts` as for `navigate_down`.
    pub fn navigate_up(&mut self, counts: Option<BoardCounts>)
        ensures
            *final(self) == board_nav_up(*old(self), counts),
    {
        match self.focus {
            BoardFocus::Sprints => {
                let current = match self.sprint_selection.get() {
                    Some(i) => i,
                    None => 0,
                };
                if current == 0 {
                    self.focus = BoardFocus::Settings;
                } else {
                    self.sprint_selection.prev();
                }
            },
            BoardFocus::Columns => {
                let current = match self.column_selection.get() {
                    Some(i) => i,
                    None => 0,
                };
                if current == 0 {
                    let sprints: usize = match counts {
                        Some(c) => c.sprints,
                        None => 0,
                    };
                    if sprints == 0 {
                        self.focus = BoardFocus::Settings;
                    } else {
                        self.focus = BoardFocus::Sprints;
                        self.sprint_selection.set(Some(sprints - 1));
                    }
                } else {
                    self.column_selection.prev();
                }
            },
            BoardFocus::Name => {
                self.focus = BoardFocus::Columns;
                self.column_selection.set(Some(0));
            },
            BoardFocus::Description => {
                self.focus = BoardFocus::Name;
            },
            BoardFocus::Settings => {
                self.focus = BoardFocus::Description;
            },
        }
    }
}

/// The cursor is on a row of its panel: a sprint of the board when the
/// sprints have focus, a column when the columns have it.
pub open spec fn board_well_placed(s: BoardDetailNav, c: BoardCounts) -> bool {
    match s.focus {
        BoardFocus::Sprints => s.sprint_selection.selected matches Some(i) && i < c.sprints,
        BoardFocus::Columns => s.column_selection.selected matches Some(i) && i < c.columns,
        _ => true,
    }
}

/// Moving up undoes moving down, for a cursor on a row of its panel, except
/// on the last of several columns (moving down from there goes round to the
/// name, and up from the name to the first column).
pub proof fn lemma_board_up_undoes_down(s: BoardDetailNav, c: BoardCounts)
    requires
        board_well_placed(s, c),
        !(s.focus == BoardFocus::Columns && c.columns > 1 && sel_row(s.column_selection) == c.columns - 1),
    ensures
        board_nav_up(board_nav_down(s, Some(c)), Some(c)).focus == s.focus,
        s.focus == BoardFocus::Sprints ==> board_nav_up(board_nav_down(s, Some(c)), Some(c)).sprint_selection == s.sprint_selection,
        s.focus == BoardFocus::Columns ==> board_nav_up(board_nav_down(s, Some(c)), Some(c)).column_selection == s.column_selection,
{
}

} // verus!

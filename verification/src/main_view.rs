use vstd::prelude::*;
use uuid::Uuid;
use crate::app_state::{clone_mode, AppMode, Focus};
use crate::keys::KeyInput;
use crate::keybinding::{binding_names_key, keycode_matches_binding_key};
use crate::card_detail::CardRef;
use crate::text::{chars_of, string_from_chars, trim, trim_bounds};

verus! {

/// The panel that has the keyboard after asking for `target`: the cards
/// panel takes it only while a board is open.
pub fn focus_after_switch(current: Focus, target: Focus, board_active: bool) -> (r: Focus)
    ensures
        r == (match target {
            Focus::Boards => Focus::Boards,
            Focus::Cards => if board_active { Focus::Cards } else { current },
        }),
{
    match target {
        Focus::Boards => Focus::Boards,
        Focus::Cards => if board_active { Focus::Cards } else { current },
    }
}

/// What a panel-number key switches to.
#[derive(Debug, Clone, Copy, PartialEq, Eq, Structural)]
pub enum PanelSwitch {
    /// Make this column of the column view the active one.
    Column(usize),
    /// Give the keyboard to this panel.
    Focus(Focus),
    Nothing,
}

/// The switch asked for by panel number `index` (counted from 0): in the
/// column view with the cards panel focused, the column `index` when the
/// board has that many columns; elsewhere 0 is the boards panel and 1 the
/// cards panel.
pub fn column_or_focus_switch(index: usize, column_view_cards: bool, column_count: usize) -> (r: PanelSwitch)
    ensures
        r == (if column_view_cards {
            if index < column_count { PanelSwitch::Column(index) } else { PanelSwitch::Nothing }
        } else if index == 0 {
            PanelSwitch::Focus(Focus::Boards)
        } else if index == 1 {
            PanelSwitch::Focus(Focus::Cards)
        } else {
            PanelSwitch::Nothing
        }),
{
    if column_view_cards {
        if index < column_count { PanelSwitch::Column(index) } else { PanelSwitch::Nothing }
    } else if index == 0 {
        PanelSwitch::Focus(Focus::Boards)
    } else if index == 1 {
        PanelSwitch::Focus(Focus::Cards)
    } else {
        PanelSwitch::Nothing
    }
}

/// The active column of the column view after a card moved one column
/// left (or right, `right`), on a board of `column_count` columns: it
/// follows the card unless it is already at the edge.
pub open spec fn column_after_move(current: int, right: bool, column_count: int) -> int {
    if right {
        if current < column_count - 1 { current + 1 } else { current }
    } else {
        if current > 0 { current - 1 } else { current }
    }
}

/// See `column_after_move`.
pub fn column_after_card_move(current: usize, right: bool, column_count: usize) -> (r: usize)
    requires
        right ==> column_count >= 1,
    ensures
        r == column_after_move(current as int, right, column_count as int),
{
    if right {
        if current < column_count - 1 { current + 1 } else { current }
    } else {
        if current > 0 { current - 1 } else { current }
    }
}

/// The active column follows a card moved right and back left: away from
/// the last column, the two steps return to the column it started in.
pub proof fn lemma_column_follows_card_back(current: int, column_count: int)
    requires
        0 <= current,
        current + 1 < column_count,
    ensures
        column_after_move(column_after_move(current, true, column_count), false, column_count) == current,
{
}

/// Which sprint-assignment dialog the assign key opens.
#[derive(Debug, Clone, Copy, PartialEq, Eq, Structural)]
pub enum SprintAssignOpen {
    /// The dialog for all selected cards.
    Multiple,
    /// The dialog for the card under the cursor.
    Single,
    Nothing,
}

/// The dialog the assign key opens: with cards selected, the one for all
/// of them; otherwise, for the card under the cursor, the single-card one
/// when the open board (`assignable` is `None` when there is none) has a
/// sprint to assign to. Only the cards panel reacts.
pub fn sprint_assign_open(
    cards_focused: bool,
    selected_count: usize,
    card_under_cursor: bool,
    assignable: Option<usize>,
) -> (r: SprintAssignOpen)
    ensures
        r == (if !cards_focused {
            SprintAssignOpen::Nothing
        } else if selected_count > 0 {
            SprintAssignOpen::Multiple
        } else if card_under_cursor && (assignable matches Some(n) && n > 0) {
            SprintAssignOpen::Single
        } else {
            SprintAssignOpen::Nothing
        }),
{
    if !cards_focused {
        SprintAssignOpen::Nothing
    } else if selected_count > 0 {
        SprintAssignOpen::Multiple
    } else if card_under_cursor {
        match assignable {
            Some(n) => if n > 0 { SprintAssignOpen::Single } else { SprintAssignOpen::Nothing },
            None => SprintAssignOpen::Nothing,
        }
    } else {
        SprintAssignOpen::Nothing
    }
}

/// A column of a board, as the new-card dialog reads it.
#[derive(Debug, Clone, Copy)]
pub struct BoardColumn {
    pub id: Uuid,
    pub board_id: Uuid,
}

/// The column a new card goes to.
#[derive(Debug, Clone, Copy)]
pub enum NewCardColumn {
    /// An existing column, by id.
    Existing(Uuid),
    /// The board has no usable column: a first column ("Todo", at position
    /// 0) is created for the card.
    CreateFirst,
}

/// `j` is the first column of `board` in `columns`.
pub open spec fn first_of_board(columns: Seq<BoardColumn>, board: Uuid, j: int) -> bool {
    &&& 0 <= j < columns.len()
    &&& columns[j].board_id == board
    &&& forall|k: int| #![trigger columns[k]] 0 <= k < j ==> columns[k].board_id != board
}

/// The column a new card of `board` goes to: the focused column when it
/// exists, the board's first column when no column is focused, and a new
/// first column when neither gives one.
pub open spec fn new_card_column_spec(columns: Seq<BoardColumn>, focused: Option<Uuid>, board: Uuid, r: NewCardColumn) -> bool {
    match focused {
        Some(f) => if exists|k: int| #![trigger columns[k]] 0 <= k < columns.len() && columns[k].id == f {
            r == NewCardColumn::Existing(f)
        } else {
            r is CreateFirst
        },
        None => if exists|k: int| #![trigger columns[k]] 0 <= k < columns.len() && columns[k].board_id == board {
            exists|j: int| first_of_board(columns, board, j) && r == NewCardColumn::Existing(columns[j].id)
        } else {
            r is CreateFirst
        },
    }
}

/// The column a card created on `board` goes to, with `focused` the column
/// the cursor is in.
pub fn new_card_column(columns: &Vec<BoardColumn>, focused: Option<Uuid>, board: Uuid) -> (r: NewCardColumn)
    ensures
        new_card_column_spec(columns@, focused, board, r),
{
    match focused {
        Some(f) => {
            let mut i: usize = 0;
            while i < columns.len()
                invariant
                    focused == Some(f),
                    i <= columns@.len(),
                    forall|k: int| #![trigger columns@[k]] 0 <= k < i ==> columns@[k].id != f,
                decreases columns@.len() - i,
            {
                if crate::ids::same_id(&columns[i].id, &f) {
                    assert(columns@[i as int].id == f);
                    return NewCardColumn::Existing(f);
                }
                i = i + 1;
            }
            NewCardColumn::CreateFirst
        },
        None => {
            let mut i: usize = 0;
            while i < columns.len()
                invariant
                    focused is None,
                    i <= columns@.len(),
                    forall|k: int| #![trigger columns@[k]] 0 <= k < i ==> columns@[k].board_id != board,
                decreases columns@.len() - i,
            {
                if crate::ids::same_id(&columns[i].board_id, &board) {
                    assert(first_of_board(columns@, board, i as int));
                    return NewCardColumn::Existing(columns[i].id);
                }
                i = i + 1;
            }
            NewCardColumn::CreateFirst
        },
    }
}

/// The card a new card is recognised by after it was added to `column`:
/// the last card of the list in that column.
pub fn last_card_in_column(cards: &Vec<CardRef>, column: Uuid) -> (r: Option<Uuid>)
    ensures
        match r {
            Some(id) => exists|j: int| #![trigger cards@[j]]
                0 <= j < cards@.len() && cards@[j].column_id == column && cards@[j].id == id
                && forall|k: int| #![trigger cards@[k]] j < k < cards@.len() ==> cards@[k].column_id != column,
            None => forall|k: int| #![trigger cards@[k]] 0 <= k < cards@.len() ==> cards@[k].column_id != column,
        },
{
    let mut i: usize = cards.len();
    while i > 0
        invariant
            i <= cards@.len(),
            forall|k: int| #![trigger cards@[k]] i <= k < cards@.len() ==> cards@[k].column_id != column,
        decreases i,
    {
        i = i - 1;
        if crate::ids::same_id(&cards[i].column_id, &column) {
            assert(cards@[i as int].column_id == column);
            return Some(cards[i].id);
        }
    }
    None
}

/// The name typed into a create or rename dialog: the text without
/// surrounding whitespace, `None` when nothing else is left (a column is
/// then not created or renamed, a sprint takes its next default name).
pub fn entity_name(input: &str) -> (r: Option<String>)
    ensures
        match r {
            Some(name) => name@ == trim(input@) && trim(input@).len() > 0,
            None => trim(input@).len() == 0,
        },
{
    let chars = chars_of(input);
    let (lo, hi) = trim_bounds(&chars, 0, chars.len());
    assert(chars@.subrange(0, chars@.len() as int) =~= input@);
    if lo == hi {
        None
    } else {
        Some(string_from_chars(&chars, lo, hi))
    }
}

/// What a key does on the help screen.
#[derive(Debug, Clone, Copy, PartialEq, Eq, Structural)]
pub enum HelpCommand {
    /// Forget any pending binding and move the cursor down.
    Down,
    /// Forget any pending binding and move the cursor up.
    Up,
    /// Forget any pending binding.
    ClearPending,
    /// Close the help screen and run the binding of this row.
    Run(usize),
    /// Close the help screen.
    Close,
    /// Move the cursor to this row and keep its binding pending.
    JumpTo(usize),
    Nothing,
}

/// Row `i` of `bindings` names `key`, and no row before it does.
pub open spec fn first_binding_for(bindings: Seq<String>, key: KeyInput, i: int) -> bool {
    &&& 0 <= i < bindings.len()
    &&& binding_names_key(bindings[i]@, key)
    &&& forall|k: int| #![trigger bindings[k]] 0 <= k < i ==> !binding_names_key(bindings[k]@, key)
}

/// The command of `key` on the help screen, whose rows show `bindings`
/// (such as `"j/↓"`) and whose cursor is on row `selected`. Keys that the
/// screen uses itself come first; any other key jumps to the first row that
/// names it.
pub open spec fn help_command(bindings: Seq<String>, key: KeyInput, selected: Option<usize>, r: HelpCommand) -> bool {
    if key == KeyInput::Char('j') || key == KeyInput::Down {
        r == HelpCommand::Down
    } else if key == KeyInput::Char('k') || key == KeyInput::Up {
        r == HelpCommand::Up
    } else if key == KeyInput::Char('h') || key == KeyInput::Char('l') {
        r == HelpCommand::ClearPending
    } else if key == KeyInput::Enter {
        r == (match selected {
            Some(i) => if i < bindings.len() { HelpCommand::Run(i) } else { HelpCommand::ClearPending },
            None => HelpCommand::ClearPending,
        })
    } else if key == KeyInput::Esc || key == KeyInput::Char('?') {
        r == HelpCommand::Close
    } else {
        match r {
            HelpCommand::JumpTo(i) => first_binding_for(bindings, key, i as int),
            HelpCommand::Nothing => forall|k: int| #![trigger bindings[k]] 0 <= k < bindings.len() ==> !binding_names_key(bindings[k]@, key),
            _ => false,
        }
    }
}

/// See `help_command`.
pub fn route_help_key(key: KeyInput, bindings: &Vec<String>, selected: Option<usize>) -> (r: HelpCommand)
    ensures
        help_command(bindings@, key, selected, r),
{
    if key == KeyInput::Char('j') || key == KeyInput::Down {
        HelpCommand::Down
    } else if key == KeyInput::Char('k') || key == KeyInput::Up {
        HelpCommand::Up
    } else if key == KeyInput::Char('h') || key == KeyInput::Char('l') {
        HelpCommand::ClearPending
    } else if key == KeyInput::Enter {
        match selected {
            Some(i) => if i < bindings.len() { HelpCommand::Run(i) } else { HelpCommand::ClearPending },
            None => HelpCommand::ClearPending,
        }
    } else if key == KeyInput::Esc || key == KeyInput::Char('?') {
        HelpCommand::Close
    } else {
        let mut i: usize = 0;
        while i < bindings.len()
            invariant
                !(key == KeyInput::Char('j') || key == KeyInput::Down),
                !(key == KeyInput::Char('k') || key == KeyInput::Up),
                !(key == KeyInput::Char('h') || key == KeyInput::Char('l')),
                key != KeyInput::Enter,
                !(key == KeyInput::Esc || key == KeyInput::Char('?')),
                i <= bindings@.len(),
                forall|k: int| #![trigger bindings@[k]] 0 <= k < i ==> !binding_names_key(bindings@[k]@, key),
            decreases bindings@.len() - i,
        {
            if keycode_matches_binding_key(&key, bindings[i].as_str()) {
                return HelpCommand::JumpTo(i);
            }
            i = i + 1;
        }
        HelpCommand::Nothing
    }
}

/// The view the help screen returns to: the one it was opened over, or
/// the main view.
pub fn mode_after_help(mode: &AppMode) -> (r: AppMode)
    ensures
        r == (match *mode {
            AppMode::Help(prev) => *prev,
            _ => AppMode::Normal,
        }),
{
    match mode {
        AppMode::Help(prev) => clone_mode(prev),
        _ => AppMode::Normal,
    }
}

} // verus!

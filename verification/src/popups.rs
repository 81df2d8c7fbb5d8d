use vstd::prelude::*;
use uuid::Uuid;
use crate::export::{id_pred, indices_where};
use crate::ids::same_id;
use crate::keys::KeyInput;
use crate::selection::{SelectionState, spec_next, spec_prev};
use crate::sprint_detail::{SortOrder, flipped};
use crate::dialogs::{CardPriority, priority_row};

verus! {

/// Fields the cards can be ordered by, in the order the order dialog lists
/// them.
#[derive(Debug, Clone, Copy, PartialEq, Eq, Structural)]
pub enum SortField {
    Points,
    Priority,
    CreatedAt,
    UpdatedAt,
    Status,
    Position,
    Default,
}

/// The field on row `i` of the order dialog.
pub open spec fn field_at(i: usize) -> Option<SortField> {
    if i == 0 {
        Some(SortField::Points)
    } else if i == 1 {
        Some(SortField::Priority)
    } else if i == 2 {
        Some(SortField::CreatedAt)
    } else if i == 3 {
        Some(SortField::UpdatedAt)
    } else if i == 4 {
        Some(SortField::Status)
    } else if i == 5 {
        Some(SortField::Position)
    } else if i == 6 {
        Some(SortField::Default)
    } else {
        None
    }
}

/// The field on row `i` of the order dialog, if there is such a row.
pub fn sort_field_at(i: usize) -> (r: Option<SortField>)
    ensures
        r == field_at(i),
{
    if i == 0 {
        Some(SortField::Points)
    } else if i == 1 {
        Some(SortField::Priority)
    } else if i == 2 {
        Some(SortField::CreatedAt)
    } else if i == 3 {
        Some(SortField::UpdatedAt)
    } else if i == 4 {
        Some(SortField::Status)
    } else if i == 5 {
        Some(SortField::Position)
    } else if i == 6 {
        Some(SortField::Default)
    } else {
        None
    }
}

/// What a key in the order dialog leads to.
#[derive(Debug, Clone, Copy, PartialEq, Eq, Structural)]
pub enum OrderCardsOutcome {
    /// Close without sorting.
    Close,
    /// Keep the dialog open.
    Continue,
    /// Sort by the field in the order, and close.
    Apply(SortField, SortOrder),
}

pub open spec fn is_confirm(key: KeyInput) -> bool {
    key == KeyInput::Enter || key == KeyInput::Char(' ')
}

/// The order a confirming key picks for `field`. Enter or Space on the field
/// already sorted by flips its order (a first sort is ascending); `d` sorts
/// descending; `a`, and Enter or Space on another field, ascending.
pub open spec fn chosen_order(
    key: KeyInput,
    field: SortField,
    current_field: Option<SortField>,
    current_order: Option<SortOrder>,
) -> SortOrder {
    if current_field == Some(field) && is_confirm(key) {
        match current_order {
            Some(o) => flipped(o),
            None => SortOrder::Ascending,
        }
    } else if key == KeyInput::Char('d') {
        SortOrder::Descending
    } else {
        SortOrder::Ascending
    }
}

impl SortField {
    fn same(self, other: SortField) -> (r: bool)
        ensures
            r == (self == other),
    {
        self == other
    }
}

/// Handles a key in the order dialog, whose selected row is `sel`. Esc
/// closes it (clearing the selection); `j`/`k` and the arrows move over the
/// seven rows; Enter, Space, `a` and `d` sort by the selected field (see
/// `chosen_order`) and close it.
pub fn handle_order_cards_key(
    sel: &mut SelectionState,
    key: KeyInput,
    current_field: Option<SortField>,
    current_order: Option<SortOrder>,
) -> (r: OrderCardsOutcome)
    ensures
        key == KeyInput::Esc ==> r == OrderCardsOutcome::Close && final(sel).selected is None,
        (key == KeyInput::Char('j') || key == KeyInput::Down) ==> r == OrderCardsOutcome::Continue
            && final(sel).selected == spec_next(old(sel).selected, 7),
        (key == KeyInput::Char('k') || key == KeyInput::Up) ==> r == OrderCardsOutcome::Continue
            && final(sel).selected == spec_prev(old(sel).selected),
        (is_confirm(key) || key == KeyInput::Char('a') || key == KeyInput::Char('d')) ==> (match old(sel).selected {
            Some(i) => match field_at(i) {
                Some(f) => r == OrderCardsOutcome::Apply(f, chosen_order(key, f, current_field, current_order))
                    && final(sel).selected is None,
                None => r == OrderCardsOutcome::Continue && *final(sel) == *old(sel),
            },
            None => r == OrderCardsOutcome::Continue && *final(sel) == *old(sel),
        }),
        !(key == KeyInput::Esc || key == KeyInput::Char('j') || key == KeyInput::Down || key
            == KeyInput::Char('k') || key == KeyInput::Up || is_confirm(key) || key
            == KeyInput::Char('a') || key == KeyInput::Char('d')) ==> r == OrderCardsOutcome::Continue
            && *final(sel) == *old(sel),
{
    if key == KeyInput::Esc {
        sel.clear();
        return OrderCardsOutcome::Close;
    }
    if key == KeyInput::Char('j') || key == KeyInput::Down {
        sel.next(7);
        return OrderCardsOutcome::Continue;
    }
    if key == KeyInput::Char('k') || key == KeyInput::Up {
        sel.prev();
        return OrderCardsOutcome::Continue;
    }
    let confirm = key == KeyInput::Enter || key == KeyInput::Char(' ');
    if !(confirm || key == KeyInput::Char('a') || key == KeyInput::Char('d')) {
        return OrderCardsOutcome::Continue;
    }
    let field = match sel.get() {
        Some(i) => match sort_field_at(i) {
            Some(f) => f,
            None => {
                return OrderCardsOutcome::Continue;
            },
        },
        None => {
            return OrderCardsOutcome::Continue;
        },
    };
    let same_field = match current_field {
        Some(cf) => cf.same(field),
        None => false,
    };
    let order = if same_field && confirm {
        match current_order {
            Some(SortOrder::Ascending) => SortOrder::Descending,
            Some(SortOrder::Descending) => SortOrder::Ascending,
            None => SortOrder::Ascending,
        }
    } else if key == KeyInput::Char('d') {
        SortOrder::Descending
    } else {
        SortOrder::Ascending
    };
    sel.clear();
    OrderCardsOutcome::Apply(field, order)
}

/// Confirming the field already sorted by twice gives back its order: the
/// second confirmation flips the first one's flip.
pub proof fn lemma_confirming_twice_restores_order(key: KeyInput, f: SortField, o: SortOrder)
    requires
        is_confirm(key),
    ensures
        chosen_order(key, f, Some(f), Some(chosen_order(key, f, Some(f), Some(o)))) == o,
{
}

/// What a key in a sprint-assignment popup leads to.
#[derive(Debug, Clone, Copy, PartialEq, Eq, Structural)]
pub enum AssignPopupOutcome {
    /// Close the popup.
    Close,
    /// Keep it open.
    Continue,
    /// Take the card(s) out of their sprint, and close.
    Unassign,
    /// Assign the card(s) to the sprint on row `i` of the sprint list, and
    /// close.
    Assign(usize),
    /// Confirming with nothing to assign: just close.
    CloseWithoutChange,
}

/// The popup lists "(None)" and then the sprints of the board; row `r` of
/// the popup, as an outcome: "(None)" unassigns, a sprint row assigns that
/// sprint, a row past the end changes nothing.
pub open spec fn assign_row_outcome(sprint_boards: Seq<Uuid>, board: Uuid, r: usize) -> AssignPopupOutcome {
    let rows = indices_where(sprint_boards.len(), id_pred(sprint_boards, board));
    if r == 0 {
        AssignPopupOutcome::Unassign
    } else if r - 1 < rows.len() {
        AssignPopupOutcome::Assign(rows[r - 1])
    } else {
        AssignPopupOutcome::CloseWithoutChange
    }
}

/// Row (in `sprint_boards`) of the `n`-th sprint of `board`.
fn nth_of_board(sprint_boards: &Vec<Uuid>, board: Uuid, n: usize) -> (r: Option<usize>)
    ensures
        ({
            let rows = indices_where(sprint_boards@.len(), id_pred(sprint_boards@, board));
            r == (if n < rows.len() { Some(rows[n as int]) } else { None })
        }),
{
    let mut seen: usize = 0;
    let mut i: usize = 0;
    let ghost p = id_pred(sprint_boards@, board);
    while i < sprint_boards.len()
        invariant
            i <= sprint_boards@.len(),
            p == id_pred(sprint_boards@, board),
            seen == indices_where(i as nat, p).len(),
            seen <= n,
            forall|m: int| 0 <= m < indices_where(i as nat, p).len() ==> #[trigger] indices_where(i as nat, p)[m] == indices_where(sprint_boards@.len(), p)[m],
            indices_where(i as nat, p).len() <= indices_where(sprint_boards@.len(), p).len(),
        decreases sprint_boards@.len() - i,
    {
        proof {
            lemma_indices_where_prefix(p, (i + 1) as nat, sprint_boards@.len());
        }
        if same_id(&sprint_boards[i], &board) {
            if seen == n {
                assert(indices_where((i + 1) as nat, p)[n as int] == i);
                return Some(i);
            }
            seen = seen + 1;
        }
        i = i + 1;
    }
    assert(i == sprint_boards@.len());
    None
}

/// The indices below `a` come first among the indices below `b >= a`.
proof fn lemma_indices_where_prefix(p: spec_fn(int) -> bool, a: nat, b: nat)
    requires
        a <= b,
    ensures
        indices_where(a, p).len() <= indices_where(b, p).len(),
        forall|m: int| 0 <= m < indices_where(a, p).len() ==> #[trigger] indices_where(a, p)[m] == indices_where(b, p)[m],
    decreases b - a,
{
    if a < b {
        lemma_indices_where_prefix(p, a, (b - 1) as nat);
    }
}

proof fn lemma_indices_where_len(p: spec_fn(int) -> bool, n: nat)
    ensures
        indices_where(n, p).len() <= n,
    decreases n,
{
    if n > 0 {
        lemma_indices_where_len(p, (n - 1) as nat);
    }
}

/// Handles a key in a sprint-assignment popup whose selected row is `sel`,
/// for the active board `board` (none when no board is active) and the
/// boards of the sprints `sprint_boards`. Esc closes; `j`/`k` and the arrows
/// move over "(None)" and the board's sprints; Enter and Space confirm the
/// selected row (see `assign_row_outcome`; without a selection, or without
/// an active board for a sprint row, they only close). Closing clears the
/// selection.
pub fn handle_sprint_assign_key(
    sel: &mut SelectionState,
    key: KeyInput,
    board: Option<Uuid>,
    sprint_boards: &Vec<Uuid>,
) -> (r: AssignPopupOutcome)
    requires
        sprint_boards@.len() < usize::MAX,
    ensures
        key == KeyInput::Esc ==> r == AssignPopupOutcome::Close && final(sel).selected is None,
        (key == KeyInput::Char('j') || key == KeyInput::Down) ==> r == AssignPopupOutcome::Continue
            && final(sel).selected == (match board {
                Some(b) => spec_next(
                    old(sel).selected,
                    (indices_where(sprint_boards@.len(), id_pred(sprint_boards@, b)).len() + 1) as usize,
                ),
                None => old(sel).selected,
            }),
        (key == KeyInput::Char('k') || key == KeyInput::Up) ==> r == AssignPopupOutcome::Continue
            && final(sel).selected == spec_prev(old(sel).selected),
        is_confirm(key) ==> final(sel).selected is None && r == (match old(sel).selected {
            None => AssignPopupOutcome::CloseWithoutChange,
            Some(i) => if i == 0 {
                AssignPopupOutcome::Unassign
            } else {
                match board {
                    Some(b) => assign_row_outcome(sprint_boards@, b, i),
                    None => AssignPopupOutcome::CloseWithoutChange,
                }
            },
        }),
        !(key == KeyInput::Esc || key == KeyInput::Char('j') || key == KeyInput::Down || key
            == KeyInput::Char('k') || key == KeyInput::Up || is_confirm(key)) ==> r
            == AssignPopupOutcome::Continue && *final(sel) == *old(sel),
{
    if key == KeyInput::Esc {
        sel.clear();
        return AssignPopupOutcome::Close;
    }
    if key == KeyInput::Char('j') || key == KeyInput::Down {
        if let Some(b) = board {
            let count = count_of_board(sprint_boards, b);
            sel.next(count + 1);
        }
        return AssignPopupOutcome::Continue;
    }
    if key == KeyInput::Char('k') || key == KeyInput::Up {
        sel.prev();
        return AssignPopupOutcome::Continue;
    }
    if !(key == KeyInput::Enter || key == KeyInput::Char(' ')) {
        return AssignPopupOutcome::Continue;
    }
    let outcome = match sel.get() {
        None => AssignPopupOutcome::CloseWithoutChange,
        Some(i) => if i == 0 {
            AssignPopupOutcome::Unassign
        } else {
            match board {
                Some(b) => match nth_of_board(sprint_boards, b, i - 1) {
                    Some(row) => AssignPopupOutcome::Assign(row),
                    None => AssignPopupOutcome::CloseWithoutChange,
                },
                None => AssignPopupOutcome::CloseWithoutChange,
            }
        },
    };
    sel.clear();
    outcome
}

/// Number of sprints of `board`.
fn count_of_board(sprint_boards: &Vec<Uuid>, board: Uuid) -> (r: usize)
    ensures
        r == indices_where(sprint_boards@.len(), id_pred(sprint_boards@, board)).len(),
        r <= sprint_boards@.len(),
{
    let mut n: usize = 0;
    let mut i: usize = 0;
    let ghost p = id_pred(sprint_boards@, board);
    while i < sprint_boards.len()
        invariant
            i <= sprint_boards@.len(),
            p == id_pred(sprint_boards@, board),
            n == indices_where(i as nat, p).len(),
            n <= i,
        decreases sprint_boards@.len() - i,
    {
        proof {
            lemma_indices_where_len(p, (i + 1) as nat);
        }
        if same_id(&sprint_boards[i], &board) {
            n = n + 1;
        }
        i = i + 1;
    }
    n
}

/// Row of the order dialog for the current sort field (the first row when
/// no field is set). It is the row that `field_at` reads back.
pub fn sort_field_selection_index(field: Option<SortField>) -> (r: usize)
    ensures
        match field {
            Some(f) => field_at(r) == Some(f),
            None => r == 0,
        },
{
    match field {
        Some(SortField::Points) => 0,
        Some(SortField::Priority) => 1,
        Some(SortField::CreatedAt) => 2,
        Some(SortField::UpdatedAt) => 3,
        Some(SortField::Status) => 4,
        Some(SortField::Position) => 5,
        Some(SortField::Default) => 6,
        None => 0,
    }
}

/// What a key in a one-column list popup leads to.
#[derive(Debug, Clone, Copy, PartialEq, Eq, Structural)]
pub enum ListPopupOutcome {
    /// Close the popup without choosing.
    Close,
    /// Keep it open.
    Continue,
    /// Close it choosing the selected row (none when no row is selected).
    Confirm(Option<usize>),
}

/// Handles a key in a list popup of `rows` rows whose selected row is `sel`:
/// Esc closes; `j`/`k` and the arrows move; Enter (and Space, when
/// `space_confirms`) confirm the selected row. When `clear_on_close`, closing
/// either way clears the selection.
pub fn list_popup_key(
    sel: &mut SelectionState,
    key: KeyInput,
    rows: usize,
    space_confirms: bool,
    clear_on_close: bool,
) -> (r: ListPopupOutcome)
    ensures
        ({
            let confirm = key == KeyInput::Enter || (space_confirms && key == KeyInput::Char(' '));
            let closing = key == KeyInput::Esc || confirm;
            &&& key == KeyInput::Esc ==> r == ListPopupOutcome::Close
            &&& confirm ==> r == ListPopupOutcome::Confirm(old(sel).selected)
            &&& closing ==> final(sel).selected == (if clear_on_close { None } else { old(sel).selected })
            &&& (key == KeyInput::Char('j') || key == KeyInput::Down) ==> r == ListPopupOutcome::Continue
                && final(sel).selected == spec_next(old(sel).selected, rows)
            &&& (key == KeyInput::Char('k') || key == KeyInput::Up) ==> r == ListPopupOutcome::Continue
                && final(sel).selected == spec_prev(old(sel).selected)
            &&& !(closing || key == KeyInput::Char('j') || key == KeyInput::Down || key
                == KeyInput::Char('k') || key == KeyInput::Up) ==> r == ListPopupOutcome::Continue
                && *final(sel) == *old(sel)
        }),
{
    if key == KeyInput::Esc {
        if clear_on_close {
            sel.clear();
        }
        return ListPopupOutcome::Close;
    }
    if key == KeyInput::Char('j') || key == KeyInput::Down {
        sel.next(rows);
        return ListPopupOutcome::Continue;
    }
    if key == KeyInput::Char('k') || key == KeyInput::Up {
        sel.prev();
        return ListPopupOutcome::Continue;
    }
    if key == KeyInput::Enter || (space_confirms && key == KeyInput::Char(' ')) {
        let chosen = sel.get();
        if clear_on_close {
            sel.clear();
        }
        return ListPopupOutcome::Confirm(chosen);
    }
    ListPopupOutcome::Continue
}

/// The priority on row `i` of the priority popup (rows past the end mean
/// Medium).
pub open spec fn priority_of_row(i: usize) -> CardPriority {
    if i == 0 {
        CardPriority::Low
    } else if i == 1 {
        CardPriority::Medium
    } else if i == 2 {
        CardPriority::High
    } else if i == 3 {
        CardPriority::Critical
    } else {
        CardPriority::Medium
    }
}

/// See `priority_of_row`.
pub fn priority_at(i: usize) -> (r: CardPriority)
    ensures
        r == priority_of_row(i),
{
    if i == 0 {
        CardPriority::Low
    } else if i == 1 {
        CardPriority::Medium
    } else if i == 2 {
        CardPriority::High
    } else if i == 3 {
        CardPriority::Critical
    } else {
        CardPriority::Medium
    }
}

/// How the cards of a board are laid out.
#[derive(Debug, Clone, Copy, PartialEq, Eq, Structural)]
pub enum TaskListView {
    Flat,
    GroupedByColumn,
    ColumnView,
}

/// The layout on row `i` of the layout popup (rows past the end mean Flat).
pub open spec fn view_of_row(i: int) -> TaskListView {
    if i == 1 {
        TaskListView::GroupedByColumn
    } else if i == 2 {
        TaskListView::ColumnView
    } else {
        TaskListView::Flat
    }
}

/// The row of layout `v` in the layout popup, where the popup opens.
pub open spec fn row_of_view(v: TaskListView) -> usize {
    match v {
        TaskListView::Flat => 0,
        TaskListView::GroupedByColumn => 1,
        TaskListView::ColumnView => 2,
    }
}

/// See `view_of_row`.
pub fn task_list_view_at(i: usize) -> (r: TaskListView)
    ensures
        r == view_of_row(i as int),
{
    if i == 1 {
        TaskListView::GroupedByColumn
    } else if i == 2 {
        TaskListView::ColumnView
    } else {
        TaskListView::Flat
    }
}

/// See `row_of_view`.
pub fn task_list_view_row(v: TaskListView) -> (r: usize)
    ensures
        r == row_of_view(v),
{
    match v {
        TaskListView::Flat => 0,
        TaskListView::GroupedByColumn => 1,
        TaskListView::ColumnView => 2,
    }
}

/// The layout popup opens on the board's layout: confirming the row it
/// opens on keeps the layout.
pub proof fn lemma_view_rows_round_trip(v: TaskListView)
    ensures
        view_of_row(row_of_view(v) as int) == v,
{
}

/// The answer to the delete-column confirmation: Enter and `y` delete, Esc
/// and `n` cancel, other keys wait (`None`).
pub fn delete_column_confirm_key(key: KeyInput) -> (r: Option<bool>)
    ensures
        r == (if key == KeyInput::Enter || key == KeyInput::Char('y') || key == KeyInput::Char('Y') {
            Some(true)
        } else if key == KeyInput::Esc || key == KeyInput::Char('n') || key == KeyInput::Char('N') {
            Some(false)
        } else {
            None
        }),
{
    if key == KeyInput::Enter || key == KeyInput::Char('y') || key == KeyInput::Char('Y') {
        Some(true)
    } else if key == KeyInput::Esc || key == KeyInput::Char('n') || key == KeyInput::Char('N') {
        Some(false)
    } else {
        None
    }
}

/// The priority popup opens on the card's priority: the row given for a
/// priority reads back as that priority.
pub proof fn lemma_priority_rows_round_trip(p: CardPriority)
    ensures
        priority_of_row(priority_row(p)) == p,
{
}

} // verus!

use vstd::prelude::*;
use uuid::Uuid;
use crate::ids::same_id;
use crate::export::{ColumnKey, column_pred, id_pred, indices_where};

verus! {

/// A column: its id, its board and its position on the board.
#[derive(Debug, Clone, Copy)]
pub struct ColumnSlot {
    pub id: Uuid,
    pub board_id: Uuid,
    pub position: i32,
}

/// Where a card moves: the row of the target column in the column list,
/// its id, and the completion the card gets (`Some(true)`: done,
/// `Some(false)`: to do, `None`: unchanged).
#[derive(Debug, Clone, Copy)]
pub struct ColumnMove {
    pub target: usize,
    pub target_id: Uuid,
    pub new_done: Option<bool>,
}

/// Column `j` is a column of `board`.
pub open spec fn on_board(cols: Seq<ColumnSlot>, board: Uuid, j: int) -> bool {
    0 <= j < cols.len() && cols[j].board_id == board
}

/// Columns are ordered by position, and columns at the same position by
/// their order in the list.
pub open spec fn before(cols: Seq<ColumnSlot>, a: int, b: int) -> bool {
    cols[a].position < cols[b].position || (cols[a].position == cols[b].position && a < b)
}

/// `j` is the first column of `board` in column order with id `id`.
pub open spec fn is_current(cols: Seq<ColumnSlot>, board: Uuid, id: Uuid, j: int) -> bool {
    &&& on_board(cols, board, j)
    &&& cols[j].id == id
    &&& forall|k: int| #![trigger cols[k]] on_board(cols, board, k) && cols[k].id == id && k != j ==> before(cols, j, k)
}

/// `j` is the column of `board` that comes right after column `c`.
pub open spec fn is_next(cols: Seq<ColumnSlot>, board: Uuid, c: int, j: int) -> bool {
    &&& on_board(cols, board, j)
    &&& before(cols, c, j)
    &&& forall|k: int| #![trigger cols[k]] on_board(cols, board, k) && before(cols, c, k) ==> k == j || before(cols, j, k)
}

/// `j` is the column of `board` that comes right before column `c`.
pub open spec fn is_prev(cols: Seq<ColumnSlot>, board: Uuid, c: int, j: int) -> bool {
    &&& on_board(cols, board, j)
    &&& before(cols, j, c)
    &&& forall|k: int| #![trigger cols[k]] on_board(cols, board, k) && before(cols, k, c) ==> k == j || before(cols, k, j)
}

/// Column `j` is the last column of `board`.
pub open spec fn is_last(cols: Seq<ColumnSlot>, board: Uuid, j: int) -> bool {
    forall|k: int| #![trigger cols[k]] on_board(cols, board, k) ==> !before(cols, j, k)
}

/// Column `j` is not the only column of `board`.
pub open spec fn has_other(cols: Seq<ColumnSlot>, board: Uuid, j: int) -> bool {
    exists|k: int| #![trigger cols[k]] on_board(cols, board, k) && k != j
}

/// The column a card in column `c` moves to: the next (or previous)
/// column, or `c` itself at the end of the board.
pub open spec fn move_target(cols: Seq<ColumnSlot>, board: Uuid, c: int, right: bool, t: int) -> bool {
    if right {
        is_next(cols, board, c, t) || (is_last(cols, board, c) && t == c)
    } else {
        is_prev(cols, board, c, t) || ((forall|k: int| #![trigger cols[k]] on_board(cols, board, k) ==> !before(cols, k, c)) && t == c)
    }
}

/// The completion a card gets from a move from column `c` to `t`: moving
/// left out of the last column reopens a done card; moving right into the
/// last column completes an open one (boards of one column change nothing).
pub open spec fn move_status(cols: Seq<ColumnSlot>, board: Uuid, c: int, t: int, right: bool, done: bool) -> Option<bool> {
    if !right && is_last(cols, board, c) && has_other(cols, board, c) && done {
        Some(false)
    } else if right && is_last(cols, board, t) && has_other(cols, board, c) && !done {
        Some(true)
    } else {
        None
    }
}

fn before_exec(cols: &Vec<ColumnSlot>, a: usize, b: usize) -> (r: bool)
    requires
        a < cols@.len(),
        b < cols@.len(),
    ensures
        r == before(cols@, a as int, b as int),
{
    cols[a].position < cols[b].position || (cols[a].position == cols[b].position && a < b)
}

/// Whether no column of `board` comes after column `j`.
fn nothing_after(cols: &Vec<ColumnSlot>, board: Uuid, j: usize) -> (r: bool)
    requires
        j < cols@.len(),
    ensures
        r == is_last(cols@, board, j as int),
{
    let mut i: usize = 0;
    while i < cols.len()
        invariant
            i <= cols@.len(),
            j < cols@.len(),
            forall|k: int| #![trigger cols@[k]] 0 <= k < i && on_board(cols@, board, k) ==> !before(cols@, j as int, k),
        decreases cols@.len() - i,
    {
        if same_id(&cols[i].board_id, &board) && before_exec(cols, j, i) {
            assert(on_board(cols@, board, i as int) && before(cols@, j as int, i as int));
            return false;
        }
        i = i + 1;
    }
    true
}

/// Plans moving a card of `board` that is in the column with id
/// `current_column` one column right (or left). `None` when the board has
/// no such column.
pub fn plan_column_move(
    cols: &Vec<ColumnSlot>,
    board: Uuid,
    current_column: Uuid,
    right: bool,
    done: bool,
) -> (r: Option<ColumnMove>)
    ensures
        r is None <==> !(exists|j: int| #![trigger cols@[j]] on_board(cols@, board, j) && cols@[j].id == current_column),
        r matches Some(m) ==> exists|c: int| #![trigger is_current(cols@, board, current_column, c)] {
            &&& is_current(cols@, board, current_column, c)
            &&& move_target(cols@, board, c, right, m.target as int)
            &&& m.target < cols@.len()
            &&& m.target_id == cols@[m.target as int].id
            &&& m.new_done == move_status(cols@, board, c, m.target as int, right, done)
        },
{
    let n = cols.len();
    // The current column: the first, in column order, with the card's id.
    let mut cur: Option<usize> = None;
    let mut i: usize = 0;
    while i < n
        invariant
            n == cols@.len(),
            i <= n,
            match cur {
                Some(c) => c < i && on_board(cols@, board, c as int) && cols@[c as int].id == current_column
                    && forall|k: int| #![trigger cols@[k]] 0 <= k < i && on_board(cols@, board, k) && cols@[k].id == current_column && k != c ==> before(cols@, c as int, k),
                None => forall|k: int| #![trigger cols@[k]] 0 <= k < i ==> !(on_board(cols@, board, k) && cols@[k].id == current_column),
            },
        decreases n - i,
    {
        if same_id(&cols[i].board_id, &board) && same_id(&cols[i].id, &current_column) {
            match cur {
                None => {
                    cur = Some(i);
                },
                Some(c) => {
                    if before_exec(cols, i, c) {
                        cur = Some(i);
                    }
                },
            }
        }
        i = i + 1;
    }
    let c = match cur {
        None => {
            return None;
        },
        Some(c) => c,
    };
    // Neighbours of the current column in column order, and whether there is
    // another column on the board.
    let mut next: Option<usize> = None;
    let mut prev: Option<usize> = None;
    let mut other = false;
    let mut i: usize = 0;
    while i < n
        invariant
            n == cols@.len(),
            i <= n,
            c < n,
            on_board(cols@, board, c as int),
            other == exists|k: int| #![trigger cols@[k]] 0 <= k < i && on_board(cols@, board, k) && k != c,
            match next {
                Some(j) => j < i && on_board(cols@, board, j as int) && before(cols@, c as int, j as int)
                    && forall|k: int| #![trigger cols@[k]] 0 <= k < i && on_board(cols@, board, k) && before(cols@, c as int, k) ==> k == j || before(cols@, j as int, k),
                None => forall|k: int| #![trigger cols@[k]] 0 <= k < i && on_board(cols@, board, k) ==> !before(cols@, c as int, k),
            },
            match prev {
                Some(j) => j < i && on_board(cols@, board, j as int) && before(cols@, j as int, c as int)
                    && forall|k: int| #![trigger cols@[k]] 0 <= k < i && on_board(cols@, board, k) && before(cols@, k, c as int) ==> k == j || before(cols@, k, j as int),
                None => forall|k: int| #![trigger cols@[k]] 0 <= k < i && on_board(cols@, board, k) ==> !before(cols@, k, c as int),
            },
        decreases n - i,
    {
        if same_id(&cols[i].board_id, &board) {
            if i != c {
                other = true;
            }
            if before_exec(cols, c, i) {
                match next {
                    None => {
                        next = Some(i);
                    },
                    Some(j) => {
                        if before_exec(cols, i, j) {
                            next = Some(i);
                        }
                    },
                }
            }
            if before_exec(cols, i, c) {
                match prev {
                    None => {
                        prev = Some(i);
                    },
                    Some(j) => {
                        if before_exec(cols, j, i) {
                            prev = Some(i);
                        }
                    },
                }
            }
        }
        i = i + 1;
    }
    let target = if right {
        match next {
            Some(j) => j,
            None => c,
        }
    } else {
        match prev {
            Some(j) => j,
            None => c,
        }
    };
    let c_last = match next {
        Some(_) => false,
        None => true,
    };
    let t_last = if right {
        match next {
            Some(j) => nothing_after(cols, board, j),
            None => true,
        }
    } else {
        c_last
    };
    let new_done = if !right && c_last && other && done {
        Some(false)
    } else if right && t_last && other && !done {
        Some(true)
    } else {
        None
    };
    proof {
        assert(is_current(cols@, board, current_column, c as int));
        assert(c_last == is_last(cols@, board, c as int));
        assert(other == has_other(cols@, board, c as int));
        assert(right ==> t_last == is_last(cols@, board, target as int));
        assert(move_target(cols@, board, c as int, right, target as int));
        assert(new_done == move_status(cols@, board, c as int, target as int, right, done));
    }
    Some(ColumnMove { target, target_id: cols[target].id, new_done })
}

/// Moving a card right and then left brings it back to its column, unless it
/// was in the last column (where moving right keeps it in place).
pub proof fn lemma_left_undoes_right(cols: Seq<ColumnSlot>, board: Uuid, c: int, t: int, back: int)
    requires
        on_board(cols, board, c),
        !is_last(cols, board, c),
        move_target(cols, board, c, true, t),
        move_target(cols, board, t, false, back),
    ensures
        back == c,
{
    assert(is_next(cols, board, c, t));
    assert(cols[c] == cols[c]);
    assert(cols[back] == cols[back]);
}

/// A move never leaves the board: the target is a column of the board.
pub proof fn lemma_move_stays_on_board(cols: Seq<ColumnSlot>, board: Uuid, c: int, right: bool, t: int)
    requires
        on_board(cols, board, c),
        move_target(cols, board, c, right, t),
    ensures
        on_board(cols, board, t),
{
}

/// What deleting a column takes: its row in the column list, the rows of its
/// cards, and the row of the column they move to (the board's first
/// column; none when that is the column deleted).
pub struct ColumnDeletion {
    pub column: usize,
    pub cards_to_move: Vec<usize>,
    pub target: Option<usize>,
}

/// The plan for deleting the `column_idx`-th column of `board`.
pub open spec fn deletion_matches(
    d: ColumnDeletion,
    cols: Seq<ColumnKey>,
    board: Uuid,
    column_idx: usize,
    card_columns: Seq<Uuid>,
) -> bool {
    let rows = indices_where(cols.len(), column_pred(cols, board));
    let victim = cols[rows[column_idx as int] as int].id;
    &&& d.column == rows[column_idx as int]
    &&& d.cards_to_move@ == indices_where(card_columns.len(), id_pred(card_columns, victim))
    &&& d.target == (if cols[rows[0] as int].id != victim { Some(rows[0]) } else { None })
}

/// Plans deleting the `column_idx`-th column of `board` (`card_columns`:
/// the column of each card). A board keeps at least one column, so there is
/// no plan for a board of one column or for a row past its columns.
pub fn plan_column_deletion(
    cols: &Vec<ColumnKey>,
    board: Uuid,
    column_idx: usize,
    card_columns: &Vec<Uuid>,
) -> (r: Option<ColumnDeletion>)
    ensures
        ({
            let rows = indices_where(cols@.len(), column_pred(cols@, board));
            match r {
                None => rows.len() <= 1 || column_idx >= rows.len(),
                Some(d) => rows.len() > 1 && column_idx < rows.len() && deletion_matches(d, cols@, board, column_idx, card_columns@),
            }
        }),
{
    let ghost p = column_pred(cols@, board);
    let mut rows: Vec<usize> = Vec::new();
    let mut i: usize = 0;
    while i < cols.len()
        invariant
            i <= cols@.len(),
            p == column_pred(cols@, board),
            rows@ == indices_where(i as nat, p),
        decreases cols@.len() - i,
    {
        if same_id(&cols[i].board_id, &board) {
            rows.push(i);
        }
        i = i + 1;
    }
    if rows.len() <= 1 || column_idx >= rows.len() {
        return None;
    }
    proof {
        lemma_indices_where_below(p, cols@.len());
    }
    let column = rows[column_idx];
    let victim = cols[column].id;
    let first = rows[0];
    let target = if same_id(&cols[first].id, &victim) { None } else { Some(first) };
    let ghost q = id_pred(card_columns@, victim);
    let mut cards: Vec<usize> = Vec::new();
    let mut k: usize = 0;
    while k < card_columns.len()
        invariant
            k <= card_columns@.len(),
            q == id_pred(card_columns@, victim),
            cards@ == indices_where(k as nat, q),
        decreases card_columns@.len() - k,
    {
        if same_id(&card_columns[k], &victim) {
            cards.push(k);
        }
        k = k + 1;
    }
    Some(ColumnDeletion { column, cards_to_move: cards, target })
}

/// Every index that `indices_where(n, p)` lists is below `n`.
proof fn lemma_indices_where_below(p: spec_fn(int) -> bool, n: nat)
    requires
        n <= usize::MAX,
    ensures
        forall|m: int| 0 <= m < indices_where(n, p).len() ==> #[trigger] indices_where(n, p)[m] < n,
    decreases n,
{
    if n > 0 {
        lemma_indices_where_below(p, (n - 1) as nat);
        let r = indices_where((n - 1) as nat, p);
        if p(n - 1) {
            assert forall|m: int| 0 <= m < r.len() + 1 implies #[trigger] r.push((n - 1) as usize)[m] < n by {
                if m < r.len() {
                    assert(r.push((n - 1) as usize)[m] == r[m]);
                }
            }
        }
    }
}

/// The column row selected after deleting the column on row `column_idx`,
/// with `remaining` columns left: the same row, or the last one.
pub fn selection_after_column_deletion(column_idx: usize, remaining: usize) -> (r: Option<usize>)
    ensures
        r == (if remaining == 0 {
            None
        } else if column_idx >= remaining {
            Some((remaining - 1) as usize)
        } else {
            Some(column_idx)
        }),
{
    if remaining == 0 {
        None
    } else if column_idx >= remaining {
        Some(remaining - 1)
    } else {
        Some(column_idx)
    }
}

/// Deleting a column other than the first moves every card of the deleted
/// column to the first column: the cards moved are exactly the cards whose
/// column is the deleted one. (Deleting the first column moves nothing.)
pub proof fn lemma_deletion_moves_all_cards(
    d: ColumnDeletion,
    cols: Seq<ColumnKey>,
    board: Uuid,
    column_idx: usize,
    card_columns: Seq<Uuid>,
    k: int,
)
    requires
        deletion_matches(d, cols, board, column_idx, card_columns),
        0 <= k < card_columns.len(),
        card_columns.len() <= usize::MAX,
    ensures
        d.cards_to_move@.contains(k as usize) <==> card_columns[k] == cols[d.column as int].id,
{
    let victim = cols[d.column as int].id;
    lemma_indices_where_member(id_pred(card_columns, victim), card_columns.len(), k);
}

/// `i` is listed by `indices_where(n, p)` exactly when `i < n` and `p(i)`.
proof fn lemma_indices_where_member(p: spec_fn(int) -> bool, n: nat, i: int)
    requires
        0 <= i <= usize::MAX,
        n <= usize::MAX,
    ensures
        indices_where(n, p).contains(i as usize) <==> (i < n && p(i)),
    decreases n,
{
    lemma_indices_where_below(p, n);
    if n > 0 {
        lemma_indices_where_member(p, (n - 1) as nat, i);
        lemma_indices_where_below(p, (n - 1) as nat);
        let r = indices_where((n - 1) as nat, p);
        let x = i as usize;
        if p(n - 1) {
            let r2 = r.push((n - 1) as usize);
            assert(r2[r.len() as int] == (n - 1) as usize);
            if r2.contains(x) {
                let j = choose|j: int| 0 <= j < r2.len() && #[trigger] r2[j] == x;
                if j < r.len() {
                    assert(r[j] == x);
                }
            }
            if r.contains(x) {
                let j = choose|j: int| 0 <= j < r.len() && #[trigger] r[j] == x;
                assert(r2[j] == x);
            }
        }
    }
}

/// Where a card sits: its column and its position in the column.
#[derive(Debug, Clone, Copy)]
pub struct CardSlot {
    pub column_id: Uuid,
    pub position: i32,
}

pub open spec fn at_or_after(cards: Seq<CardSlot>, column: Uuid, position: i32, k: int) -> bool {
    cards[k].column_id == column && cards[k].position >= position
}

pub open spec fn in_column(cards: Seq<CardSlot>, column: Uuid, k: int) -> bool {
    cards[k].column_id == column
}

/// The card selected after deleting the card at `position` of `column`: the
/// first card of the column (in list order) at that position or after it,
/// else the column's last card, else none.
pub open spec fn after_deletion(cards: Seq<CardSlot>, column: Uuid, position: i32, r: Option<usize>) -> bool {
    if exists|k: int| 0 <= k < cards.len() && #[trigger] at_or_after(cards, column, position, k) {
        r matches Some(i) && i < cards.len() && at_or_after(cards, column, position, i as int)
            && forall|k: int| 0 <= k < i ==> !#[trigger] at_or_after(cards, column, position, k)
    } else if exists|k: int| 0 <= k < cards.len() && #[trigger] in_column(cards, column, k) {
        r matches Some(i) && i < cards.len() && in_column(cards, column, i as int)
            && forall|k: int| i < k < cards.len() ==> !#[trigger] in_column(cards, column, k)
    } else {
        r is None
    }
}

/// See `after_deletion`.
pub fn card_after_deletion(cards: &Vec<CardSlot>, column: Uuid, position: i32) -> (r: Option<usize>)
    ensures
        after_deletion(cards@, column, position, r),
{
    let mut i: usize = 0;
    while i < cards.len()
        invariant
            i <= cards@.len(),
            forall|k: int| 0 <= k < i ==> !#[trigger] at_or_after(cards@, column, position, k),
        decreases cards@.len() - i,
    {
        if same_id(&cards[i].column_id, &column) && cards[i].position >= position {
            assert(at_or_after(cards@, column, position, i as int));
            return Some(i);
        }
        i = i + 1;
    }
    let mut j: usize = cards.len();
    while j > 0
        invariant
            j <= cards@.len(),
            forall|k: int| 0 <= k < cards@.len() ==> !#[trigger] at_or_after(cards@, column, position, k),
            forall|k: int| j <= k < cards@.len() ==> !#[trigger] in_column(cards@, column, k),
        decreases j,
    {
        if same_id(&cards[j - 1].column_id, &column) {
            assert(in_column(cards@, column, (j - 1) as int));
            return Some(j - 1);
        }
        j = j - 1;
    }
    None
}

/// Number of columns of `board` among the first `n` of the list that come
/// before column `j` in column order.
pub open spec fn rank_upto(cols: Seq<ColumnSlot>, board: Uuid, j: int, n: int) -> nat
    decreases n,
{
    if n <= 0 {
        0
    } else {
        rank_upto(cols, board, j, n - 1) + if on_board(cols, board, n - 1) && before(cols, n - 1, j) {
            1nat
        } else {
            0nat
        }
    }
}

/// Place of column `j` among the columns of `board` in column order (0 for
/// the first).
pub open spec fn rank(cols: Seq<ColumnSlot>, board: Uuid, j: int) -> nat {
    rank_upto(cols, board, j, cols.len() as int)
}

proof fn lemma_rank_upto_bound(cols: Seq<ColumnSlot>, board: Uuid, j: int, n: int)
    ensures
        rank_upto(cols, board, j, n) <= if n > 0 { n as nat } else { 0 },
    decreases n,
{
    if n > 0 {
        lemma_rank_upto_bound(cols, board, j, n - 1);
    }
}

/// Column of `board` at place `r` in column order, if any.
fn column_with_rank(cols: &Vec<ColumnSlot>, board: Uuid, r: usize) -> (res: Option<usize>)
    ensures
        match res {
            Some(j) => on_board(cols@, board, j as int) && rank(cols@, board, j as int) == r,
            None => forall|j: int| #![trigger cols@[j]] on_board(cols@, board, j) ==> rank(cols@, board, j) != r,
        },
{
    let n = cols.len();
    let mut j: usize = 0;
    while j < n
        invariant
            n == cols@.len(),
            j <= n,
            forall|k: int| #![trigger cols@[k]] 0 <= k < j && on_board(cols@, board, k) ==> rank(cols@, board, k) != r,
        decreases n - j,
    {
        if same_id(&cols[j].board_id, &board) {
            let mut count: usize = 0;
            let mut i: usize = 0;
            while i < n
                invariant
                    n == cols@.len(),
                    i <= n,
                    j < n,
                    count == rank_upto(cols@, board, j as int, i as int),
                    count <= i,
                decreases n - i,
            {
                if same_id(&cols[i].board_id, &board) && before_exec(cols, i, j) {
                    count = count + 1;
                }
                i = i + 1;
            }
            if count == r {
                return Some(j);
            }
        }
        j = j + 1;
    }
    None
}

/// Some column of `board` is at place `p`.
pub open spec fn place_taken(cols: Seq<ColumnSlot>, board: Uuid, p: int) -> bool {
    exists|j: int| #![trigger cols[j]] on_board(cols, board, j) && rank(cols, board, j) == p
}

/// Moving the column at place `selected` up (or down) swaps its position
/// with the column before (or after) it: the rows of the two columns, the
/// selected one first, when both places are taken.
pub open spec fn swap_plan(cols: Seq<ColumnSlot>, board: Uuid, selected: usize, up: bool, r: Option<(usize, usize)>) -> bool {
    let other: int = if up { selected - 1 } else { selected + 1 };
    match r {
        Some((a, b)) => (up ==> selected > 0) && on_board(cols, board, a as int) && rank(cols, board, a as int) == selected
            && on_board(cols, board, b as int) && rank(cols, board, b as int) == other,
        None => (up && selected == 0) || !place_taken(cols, board, selected as int) || !place_taken(cols, board, other),
    }
}

/// Plans moving the column at place `selected` of `board` one place up or
/// down (see `swap_plan`).
pub fn plan_column_swap(cols: &Vec<ColumnSlot>, board: Uuid, selected: usize, up: bool) -> (r: Option<(usize, usize)>)
    requires
        selected < usize::MAX,
    ensures
        swap_plan(cols@, board, selected, up, r),
{
    if up && selected == 0 {
        return None;
    }
    let other = if up { selected - 1 } else { selected + 1 };
    let a = column_with_rank(cols, board, selected);
    let b = column_with_rank(cols, board, other);
    match (a, b) {
        (Some(x), Some(y)) => Some((x, y)),
        _ => None,
    }
}

/// The position a new column of `board` takes: one past the largest
/// position among the board's columns, 0 when it has none.
pub fn next_column_position(cols: &Vec<ColumnSlot>, board: Uuid) -> (r: i32)
    requires
        forall|j: int| #![trigger cols@[j]] on_board(cols@, board, j) ==> cols@[j].position < i32::MAX,
    ensures
        forall|j: int| #![trigger cols@[j]] on_board(cols@, board, j) ==> cols@[j].position < r,
        (exists|j: int| #![trigger cols@[j]] on_board(cols@, board, j) && r == cols@[j].position + 1)
            || (r == 0 && forall|j: int| #![trigger cols@[j]] !on_board(cols@, board, j)),
{
    let mut best: Option<i32> = None;
    let mut i: usize = 0;
    while i < cols.len()
        invariant
            i <= cols@.len(),
            forall|j: int| #![trigger cols@[j]] on_board(cols@, board, j) ==> cols@[j].position < i32::MAX,
            match best {
                Some(m) => (exists|j: int| #![trigger cols@[j]] 0 <= j < i && on_board(cols@, board, j) && cols@[j].position == m)
                    && forall|j: int| #![trigger cols@[j]] 0 <= j < i && on_board(cols@, board, j) ==> cols@[j].position <= m,
                None => forall|j: int| #![trigger cols@[j]] 0 <= j < i ==> !on_board(cols@, board, j),
            },
        decreases cols@.len() - i,
    {
        if same_id(&cols[i].board_id, &board) {
            let p = cols[i].position;
            assert(on_board(cols@, board, i as int));
            best = match best {
                Some(m) => if p > m { Some(p) } else { Some(m) },
                None => Some(p),
            };
        }
        i = i + 1;
    }
    match best {
        Some(m) => m + 1,
        None => 0,
    }
}

/// The row in `cols` of the `n`-th column of `board` (counted from 0 in
/// list order), if the board has that many columns.
pub fn nth_board_column(cols: &Vec<ColumnKey>, board: Uuid, n: usize) -> (r: Option<usize>)
    ensures
        ({
            let rows = indices_where(cols@.len(), column_pred(cols@, board));
            r == (if n < rows.len() { Some(rows[n as int]) } else { None::<usize> })
        }),
{
    let ghost p = column_pred(cols@, board);
    let mut rows: Vec<usize> = Vec::new();
    let mut i: usize = 0;
    while i < cols.len()
        invariant
            i <= cols@.len(),
            p == column_pred(cols@, board),
            rows@ == indices_where(i as nat, p),
        decreases cols@.len() - i,
    {
        if same_id(&cols[i].board_id, &board) {
            rows.push(i);
        }
        i = i + 1;
    }
    if n < rows.len() { Some(rows[n]) } else { None }
}

} // verus!

use vstd::prelude::*;
use uuid::Uuid;
use crate::ids::same_id;

verus! {

/// One board with its columns, cards and sprints, as written to an export.
pub struct BoardExport<B, C, K, S> {
    pub board: B,
    pub columns: Vec<C>,
    pub cards: Vec<K>,
    pub sprints: Vec<S>,
}

/// The boards of an export file.
pub struct AllBoardsExport<B, C, K, S> {
    pub boards: Vec<BoardExport<B, C, K, S>>,
}

/// Id of a column and of the board it belongs to.
#[derive(Debug, Clone, Copy)]
pub struct ColumnKey {
    pub id: Uuid,
    pub board_id: Uuid,
}

/// Rows of the column, card and sprint lists that belong to one board.
pub struct BoardSelection {
    pub columns: Vec<usize>,
    pub cards: Vec<usize>,
    pub sprints: Vec<usize>,
}

/// Indices `i < n` with `p(i)`, in increasing order.
pub open spec fn indices_where(n: nat, p: spec_fn(int) -> bool) -> Seq<usize>
    decreases n,
{
    if n == 0 {
        Seq::empty()
    } else {
        let r = indices_where((n - 1) as nat, p);
        if p(n - 1) {
            r.push((n - 1) as usize)
        } else {
            r
        }
    }
}

/// A card in `column` belongs to `board`: the column is one of the board's.
pub open spec fn card_of_board(columns: Seq<ColumnKey>, board: Uuid, column: Uuid) -> bool {
    exists|j: int| 0 <= j < columns.len() && columns[j].board_id == board && columns[j].id == column
}

pub open spec fn column_pred(columns: Seq<ColumnKey>, board: Uuid) -> spec_fn(int) -> bool {
    |j: int| columns[j].board_id == board
}

pub open spec fn card_pred(columns: Seq<ColumnKey>, board: Uuid, card_columns: Seq<Uuid>) -> spec_fn(int) -> bool {
    |j: int| card_of_board(columns, board, card_columns[j])
}

pub open spec fn id_pred(keys: Seq<Uuid>, id: Uuid) -> spec_fn(int) -> bool {
    |j: int| keys[j] == id
}

/// What `export_board` selects for `board`.
pub open spec fn board_selection_matches(
    sel: BoardSelection,
    board: Uuid,
    columns: Seq<ColumnKey>,
    card_columns: Seq<Uuid>,
    sprint_boards: Seq<Uuid>,
) -> bool {
    &&& sel.columns@ == indices_where(columns.len(), column_pred(columns, board))
    &&& sel.cards@ == indices_where(card_columns.len(), card_pred(columns, board, card_columns))
    &&& sel.sprints@ == indices_where(sprint_boards.len(), id_pred(sprint_boards, board))
}

/// Rows `i < n` of `keys` whose id is `id`.
fn rows_with_id(keys: &Vec<Uuid>, id: Uuid) -> (r: Vec<usize>)
    ensures
        r@ == indices_where(keys@.len(), id_pred(keys@, id)),
{
    let mut r: Vec<usize> = Vec::new();
    let mut i: usize = 0;
    while i < keys.len()
        invariant
            i <= keys@.len(),
            r@ == indices_where(i as nat, id_pred(keys@, id)),
        decreases keys@.len() - i,
    {
        if same_id(&keys[i], &id) {
            r.push(i);
        }
        i = i + 1;
    }
    r
}

/// Whether some column of `board` has id `column`.
fn board_has_column(columns: &Vec<ColumnKey>, board: Uuid, column: Uuid) -> (r: bool)
    ensures
        r == card_of_board(columns@, board, column),
{
    let mut i: usize = 0;
    while i < columns.len()
        invariant
            i <= columns@.len(),
            forall|k: int| 0 <= k < i ==> !(columns@[k].board_id == board && columns@[k].id == column),
        decreases columns@.len() - i,
    {
        let c = columns[i];
        if same_id(&c.board_id, &board) && same_id(&c.id, &column) {
            return true;
        }
        i = i + 1;
    }
    false
}

/// Exports boards.
pub struct BoardExporter;

impl BoardExporter {
    /// The columns of `board_id`, the cards in those columns and the sprints
    /// of the board, as rows of the given lists (in list order).
    pub fn export_board(
        board_id: Uuid,
        columns: &Vec<ColumnKey>,
        card_columns: &Vec<Uuid>,
        sprint_boards: &Vec<Uuid>,
    ) -> (sel: BoardSelection)
        ensures
            board_selection_matches(sel, board_id, columns@, card_columns@, sprint_boards@),
    {
        let mut cols: Vec<usize> = Vec::new();
        let mut i: usize = 0;
        while i < columns.len()
            invariant
                i <= columns@.len(),
                cols@ == indices_where(i as nat, column_pred(columns@, board_id)),
            decreases columns@.len() - i,
        {
            if same_id(&columns[i].board_id, &board_id) {
                cols.push(i);
            }
            i = i + 1;
        }
        let mut cards: Vec<usize> = Vec::new();
        let mut k: usize = 0;
        while k < card_columns.len()
            invariant
                k <= card_columns@.len(),
                cards@ == indices_where(k as nat, card_pred(columns@, board_id, card_columns@)),
            decreases card_columns@.len() - k,
        {
            if board_has_column(columns, board_id, card_columns[k]) {
                cards.push(k);
            }
            k = k + 1;
        }
        let sprints = rows_with_id(sprint_boards, board_id);
        BoardSelection { columns: cols, cards, sprints }
    }

    /// `export_board` for each board of `board_ids`, in order.
    pub fn export_all_boards(
        board_ids: &Vec<Uuid>,
        columns: &Vec<ColumnKey>,
        card_columns: &Vec<Uuid>,
        sprint_boards: &Vec<Uuid>,
    ) -> (r: Vec<BoardSelection>)
        ensures
            r@.len() == board_ids@.len(),
            forall|i: int|
                0 <= i < r@.len() ==> board_selection_matches(
                    #[trigger] r@[i],
                    board_ids@[i],
                    columns@,
                    card_columns@,
                    sprint_boards@,
                ),
    {
        let mut r: Vec<BoardSelection> = Vec::new();
        let mut i: usize = 0;
        while i < board_ids.len()
            invariant
                i <= board_ids@.len(),
                r@.len() == i,
                forall|k: int|
                    0 <= k < i ==> board_selection_matches(
                        #[trigger] r@[k],
                        board_ids@[k],
                        columns@,
                        card_columns@,
                        sprint_boards@,
                    ),
            decreases board_ids@.len() - i,
        {
            r.push(Self::export_board(board_ids[i], columns, card_columns, sprint_boards));
            i = i + 1;
        }
        r
    }
}

pub open spec fn all_boards<B, C, K, S>(bs: Seq<BoardExport<B, C, K, S>>) -> Seq<B> {
    bs.map_values(|b: BoardExport<B, C, K, S>| b.board)
}

pub open spec fn all_columns<B, C, K, S>(bs: Seq<BoardExport<B, C, K, S>>) -> Seq<C>
    decreases bs.len(),
{
    if bs.len() == 0 {
        Seq::empty()
    } else {
        all_columns(bs.drop_last()) + bs.last().columns@
    }
}

pub open spec fn all_cards<B, C, K, S>(bs: Seq<BoardExport<B, C, K, S>>) -> Seq<K>
    decreases bs.len(),
{
    if bs.len() == 0 {
        Seq::empty()
    } else {
        all_cards(bs.drop_last()) + bs.last().cards@
    }
}

pub open spec fn all_sprints<B, C, K, S>(bs: Seq<BoardExport<B, C, K, S>>) -> Seq<S>
    decreases bs.len(),
{
    if bs.len() == 0 {
        Seq::empty()
    } else {
        all_sprints(bs.drop_last()) + bs.last().sprints@
    }
}

/// Imports boards.
pub struct BoardImporter;

impl BoardImporter {
    /// The boards of an import, and all their columns, cards and sprints,
    /// board after board.
    pub fn extract_entities<B, C, K, S>(import: AllBoardsExport<B, C, K, S>) -> (r: (
        Vec<B>,
        Vec<C>,
        Vec<K>,
        Vec<S>,
    ))
        ensures
            r.0@ == all_boards(import.boards@),
            r.1@ == all_columns(import.boards@),
            r.2@ == all_cards(import.boards@),
            r.3@ == all_sprints(import.boards@),
    {
        let ghost orig = import.boards@;
        let mut rest = import.boards;
        let total = rest.len();
        let mut boards: Vec<B> = Vec::new();
        let mut columns: Vec<C> = Vec::new();
        let mut cards: Vec<K> = Vec::new();
        let mut sprints: Vec<S> = Vec::new();
        let mut done: usize = 0;
        assert(orig.take(0) =~= Seq::<BoardExport<B, C, K, S>>::empty());
        assert(orig.skip(0) =~= orig);
        while rest.len() > 0
            invariant
                done <= orig.len() == total,
                rest@ == orig.skip(done as int),
                boards@ == all_boards(orig.take(done as int)),
                columns@ == all_columns(orig.take(done as int)),
                cards@ == all_cards(orig.take(done as int)),
                sprints@ == all_sprints(orig.take(done as int)),
            decreases rest@.len(),
        {
            let b = rest.remove(0);
            assert(b == orig[done as int]);
            let ghost t1 = orig.take(done + 1);
            assert(t1.drop_last() =~= orig.take(done as int));
            assert(t1.last() == b);
            boards.push(b.board);
            let mut bc = b.columns;
            let mut bk = b.cards;
            let mut bs = b.sprints;
            columns.append(&mut bc);
            cards.append(&mut bk);
            sprints.append(&mut bs);
            done = done + 1;
            assert(rest@ =~= orig.skip(done as int));
            assert(boards@ =~= all_boards(orig.take(done as int)));
        }
        assert(orig.take(done as int) =~= orig);
        (boards, columns, cards, sprints)
    }
}

} // verus!

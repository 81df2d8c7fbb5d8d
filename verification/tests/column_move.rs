use kanban_tui::column_move::nth_board_column;
use kanban_tui::column_move::next_column_position;
use kanban_tui::column_move::plan_column_swap;
use kanban_tui::column_move::{card_after_deletion, CardSlot};
use kanban_tui::column_move::{
    plan_column_deletion, plan_column_move, selection_after_column_deletion, ColumnSlot,
};
use kanban_tui::export::ColumnKey;
use uuid::Uuid;

fn board_with(positions: &[i32]) -> (Uuid, Vec<ColumnSlot>) {
    let board = Uuid::new_v4();
    let cols = positions
        .iter()
        .map(|&p| ColumnSlot { id: Uuid::new_v4(), board_id: board, position: p })
        .collect();
    (board, cols)
}

#[test]
fn moves_follow_positions_not_list_order() {
    // List order: Done(2), Todo(0), Doing(1).
    let (board, cols) = board_with(&[2, 0, 1]);
    let todo = cols[1].id;
    let doing = cols[2].id;
    let done = cols[0].id;

    let m = plan_column_move(&cols, board, todo, true, false).unwrap();
    assert_eq!(m.target_id, doing);
    assert_eq!(m.new_done, None);

    let m = plan_column_move(&cols, board, doing, true, false).unwrap();
    assert_eq!(m.target_id, done);
    assert_eq!(m.new_done, Some(true), "moving into the last column completes the card");

    let m = plan_column_move(&cols, board, done, true, true).unwrap();
    assert_eq!(m.target_id, done, "the last column has nothing to its right");
    assert_eq!(m.new_done, None);

    let m = plan_column_move(&cols, board, done, false, true).unwrap();
    assert_eq!(m.target_id, doing);
    assert_eq!(m.new_done, Some(false), "leaving the last column reopens the card");

    let m = plan_column_move(&cols, board, todo, false, false).unwrap();
    assert_eq!(m.target_id, todo);
    assert_eq!(m.target, 1);
}

#[test]
fn right_then_left_comes_back() {
    let (board, cols) = board_with(&[0, 5, 5, 9]);
    for start in 0..3 {
        let id = cols[start].id;
        let r = plan_column_move(&cols, board, id, true, false).unwrap();
        let back = plan_column_move(&cols, board, r.target_id, false, false).unwrap();
        assert_eq!(back.target_id, id);
    }
}

#[test]
fn other_boards_and_unknown_columns() {
    let (board, mut cols) = board_with(&[0, 1]);
    let other = Uuid::new_v4();
    cols.push(ColumnSlot { id: Uuid::new_v4(), board_id: other, position: 0 });
    assert!(plan_column_move(&cols, board, Uuid::new_v4(), true, false).is_none());
    assert!(plan_column_move(&cols, board, cols[2].id, true, false).is_none());
    let m = plan_column_move(&cols, board, cols[0].id, true, false).unwrap();
    assert_eq!(m.target_id, cols[1].id);
    let (single_board, single) = board_with(&[3]);
    let m = plan_column_move(&single, single_board, single[0].id, true, false).unwrap();
    assert_eq!(m.new_done, None, "a board of one column changes no completion");
}

#[test]
fn column_deletion_plan() {
    let board = Uuid::new_v4();
    let other = Uuid::new_v4();
    let c0 = ColumnKey { id: Uuid::new_v4(), board_id: board };
    let cx = ColumnKey { id: Uuid::new_v4(), board_id: other };
    let c1 = ColumnKey { id: Uuid::new_v4(), board_id: board };
    let cols = vec![c0, cx, c1];
    let cards = vec![c1.id, c0.id, c1.id, cx.id];

    let d = plan_column_deletion(&cols, board, 1, &cards).unwrap();
    assert_eq!(d.column, 2);
    assert_eq!(d.cards_to_move, vec![0, 2]);
    assert_eq!(d.target, Some(0));

    let first = plan_column_deletion(&cols, board, 0, &cards).unwrap();
    assert_eq!(first.column, 0);
    assert_eq!(first.cards_to_move, vec![1]);
    assert_eq!(first.target, None);

    assert!(plan_column_deletion(&cols, board, 2, &cards).is_none());
    assert!(plan_column_deletion(&cols, other, 0, &cards).is_none(), "the last column stays");

    assert_eq!(selection_after_column_deletion(3, 3), Some(2));
    assert_eq!(selection_after_column_deletion(1, 3), Some(1));
    assert_eq!(selection_after_column_deletion(0, 0), None);
}

#[test]
fn selection_after_card_deletion() {
    let a = Uuid::new_v4();
    let b = Uuid::new_v4();
    let cards = vec![
        CardSlot { column_id: a, position: 0 },
        CardSlot { column_id: b, position: 0 },
        CardSlot { column_id: a, position: 3 },
        CardSlot { column_id: a, position: 1 },
    ];
    assert_eq!(card_after_deletion(&cards, a, 1), Some(2));
    assert_eq!(card_after_deletion(&cards, a, 5), Some(3), "no card after: the column's last card");
    assert_eq!(card_after_deletion(&cards, b, 2), Some(1));
    assert_eq!(card_after_deletion(&cards, Uuid::new_v4(), 0), None);
}

#[test]
fn column_swaps_follow_column_order() {
    // List order: Done(2), Todo(0), Doing(1).
    let (board, cols) = board_with(&[2, 0, 1]);
    assert_eq!(plan_column_swap(&cols, board, 1, true), Some((2, 1)), "Doing swaps with Todo");
    assert_eq!(plan_column_swap(&cols, board, 1, false), Some((2, 0)), "Doing swaps with Done");
    assert_eq!(plan_column_swap(&cols, board, 0, true), None, "nothing above the first");
    assert_eq!(plan_column_swap(&cols, board, 2, false), None, "nothing below the last");
    assert_eq!(plan_column_swap(&cols, board, 5, true), None);
    assert_eq!(plan_column_swap(&cols, Uuid::new_v4(), 0, false), None);
}

#[test]
fn new_columns_go_after_the_last_one() {
    let board = Uuid::new_v4();
    let other = Uuid::new_v4();
    let cols = vec![
        ColumnSlot { id: Uuid::new_v4(), board_id: board, position: 4 },
        ColumnSlot { id: Uuid::new_v4(), board_id: other, position: 9 },
        ColumnSlot { id: Uuid::new_v4(), board_id: board, position: 1 },
    ];
    assert_eq!(next_column_position(&cols, board), 5);
    assert_eq!(next_column_position(&cols, other), 10);
    assert_eq!(next_column_position(&cols, Uuid::new_v4()), 0);
    let negative = vec![ColumnSlot { id: Uuid::new_v4(), board_id: board, position: -3 }];
    assert_eq!(next_column_position(&negative, board), -2);
}

#[test]
fn nth_column_of_a_board_in_list_order() {
    let board = Uuid::new_v4();
    let other = Uuid::new_v4();
    let cols = vec![
        ColumnKey { id: Uuid::new_v4(), board_id: other },
        ColumnKey { id: Uuid::new_v4(), board_id: board },
        ColumnKey { id: Uuid::new_v4(), board_id: other },
        ColumnKey { id: Uuid::new_v4(), board_id: board },
    ];
    assert_eq!(nth_board_column(&cols, board, 0), Some(1));
    assert_eq!(nth_board_column(&cols, board, 1), Some(3));
    assert_eq!(nth_board_column(&cols, board, 2), None);
    assert_eq!(nth_board_column(&cols, other, 1), Some(2));
}

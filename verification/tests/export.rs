use kanban_tui::export::{AllBoardsExport, BoardExport, BoardExporter, BoardImporter, ColumnKey};
use uuid::Uuid;

#[test]
fn test_export_single_board() {
    let board = Uuid::new_v4();
    let column = ColumnKey { id: Uuid::new_v4(), board_id: board };
    let columns = vec![column];
    let card_columns = vec![column.id];
    let sprint_boards: Vec<Uuid> = vec![];

    let export = BoardExporter::export_board(board, &columns, &card_columns, &sprint_boards);

    assert_eq!(export.columns.len(), 1);
    assert_eq!(export.cards.len(), 1);
    assert_eq!(export.sprints.len(), 0);
}

#[test]
fn test_export_all_boards() {
    let board1 = Uuid::new_v4();
    let board2 = Uuid::new_v4();
    let boards = vec![board1, board2];
    let column1 = ColumnKey { id: Uuid::new_v4(), board_id: board1 };
    let column2 = ColumnKey { id: Uuid::new_v4(), board_id: board2 };
    let columns = vec![column1, column2];
    let card_columns: Vec<Uuid> = vec![];
    let sprint_boards: Vec<Uuid> = vec![];

    let export = BoardExporter::export_all_boards(&boards, &columns, &card_columns, &sprint_boards);

    assert_eq!(export.len(), 2);
    assert_eq!(export[0].columns, vec![0]);
    assert_eq!(export[1].columns, vec![1]);
}

#[test]
fn test_extract_entities() {
    let export = AllBoardsExport {
        boards: vec![BoardExport {
            board: "Test".to_string(),
            columns: vec!["Todo".to_string()],
            cards: vec!["Task".to_string()],
            sprints: Vec::<String>::new(),
        }],
    };

    let (boards, columns, cards, sprints) = BoardImporter::extract_entities(export);

    assert_eq!(boards.len(), 1);
    assert_eq!(columns.len(), 1);
    assert_eq!(cards.len(), 1);
    assert_eq!(sprints.len(), 0);
}

#[test]
fn export_board_keeps_only_rows_of_the_board_in_order() {
    let a = Uuid::new_v4();
    let b = Uuid::new_v4();
    let ca = ColumnKey { id: Uuid::new_v4(), board_id: a };
    let cb = ColumnKey { id: Uuid::new_v4(), board_id: b };
    let ca2 = ColumnKey { id: Uuid::new_v4(), board_id: a };
    let columns = vec![ca, cb, ca2];
    let card_columns = vec![cb.id, ca2.id, ca.id, Uuid::new_v4(), cb.id];
    let sprint_boards = vec![b, a, a];

    let sel = BoardExporter::export_board(a, &columns, &card_columns, &sprint_boards);
    assert_eq!(sel.columns, vec![0, 2]);
    assert_eq!(sel.cards, vec![1, 2]);
    assert_eq!(sel.sprints, vec![1, 2]);

    let sel_b = BoardExporter::export_board(b, &columns, &card_columns, &sprint_boards);
    assert_eq!(sel_b.columns, vec![1]);
    assert_eq!(sel_b.cards, vec![0, 4]);
    assert_eq!(sel_b.sprints, vec![0]);
}

#[test]
fn extract_entities_concatenates_board_after_board() {
    let export = AllBoardsExport {
        boards: vec![
            BoardExport { board: 1u32, columns: vec![10u32, 11], cards: vec![100u32], sprints: vec![7u32] },
            BoardExport { board: 2u32, columns: vec![20u32], cards: vec![200u32, 201], sprints: vec![] },
        ],
    };
    let (boards, columns, cards, sprints) = BoardImporter::extract_entities(export);
    assert_eq!(boards, vec![1, 2]);
    assert_eq!(columns, vec![10, 11, 20]);
    assert_eq!(cards, vec![100, 200, 201]);
    assert_eq!(sprints, vec![7]);
}

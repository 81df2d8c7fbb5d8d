use kanban_tui::main_view::entity_name;
use kanban_tui::app_state::{AppMode, DialogMode, Focus};
use kanban_tui::card_detail::CardRef;
use kanban_tui::keys::KeyInput;
use kanban_tui::main_view::{
    column_after_card_move, column_or_focus_switch, focus_after_switch, last_card_in_column,
    mode_after_help, new_card_column, route_help_key, sprint_assign_open, BoardColumn,
    HelpCommand, NewCardColumn, PanelSwitch, SprintAssignOpen,
};
use uuid::Uuid;

#[test]
fn cards_panel_needs_an_open_board() {
    assert_eq!(focus_after_switch(Focus::Boards, Focus::Cards, false), Focus::Boards);
    assert_eq!(focus_after_switch(Focus::Boards, Focus::Cards, true), Focus::Cards);
    assert_eq!(focus_after_switch(Focus::Cards, Focus::Boards, true), Focus::Boards);
    assert_eq!(focus_after_switch(Focus::Cards, Focus::Boards, false), Focus::Boards);
}

#[test]
fn panel_numbers_pick_columns_in_the_column_view() {
    assert_eq!(column_or_focus_switch(2, true, 3), PanelSwitch::Column(2));
    assert_eq!(column_or_focus_switch(3, true, 3), PanelSwitch::Nothing);
    assert_eq!(column_or_focus_switch(0, false, 3), PanelSwitch::Focus(Focus::Boards));
    assert_eq!(column_or_focus_switch(1, false, 3), PanelSwitch::Focus(Focus::Cards));
    assert_eq!(column_or_focus_switch(2, false, 3), PanelSwitch::Nothing);
}

#[test]
fn active_column_follows_a_moved_card() {
    assert_eq!(column_after_card_move(1, true, 3), 2);
    assert_eq!(column_after_card_move(2, true, 3), 2);
    assert_eq!(column_after_card_move(1, false, 3), 0);
    assert_eq!(column_after_card_move(0, false, 3), 0);
    assert_eq!(column_after_card_move(0, true, 1), 0);
    assert_eq!(column_after_card_move(column_after_card_move(1, true, 3), false, 3), 1, "right then left returns");
    assert_eq!(column_after_card_move(column_after_card_move(2, true, 3), false, 3), 1, "not at the last column");
}

#[test]
fn assign_key_opens_the_right_dialog() {
    assert_eq!(sprint_assign_open(false, 3, true, Some(2)), SprintAssignOpen::Nothing);
    assert_eq!(sprint_assign_open(true, 3, true, Some(0)), SprintAssignOpen::Multiple);
    assert_eq!(sprint_assign_open(true, 0, true, Some(2)), SprintAssignOpen::Single);
    assert_eq!(sprint_assign_open(true, 0, true, Some(0)), SprintAssignOpen::Nothing);
    assert_eq!(sprint_assign_open(true, 0, true, None), SprintAssignOpen::Nothing);
    assert_eq!(sprint_assign_open(true, 0, false, Some(2)), SprintAssignOpen::Nothing);
}

#[test]
fn new_cards_go_to_the_focused_or_first_column() {
    let board = Uuid::new_v4();
    let other = Uuid::new_v4();
    let a = Uuid::new_v4();
    let b = Uuid::new_v4();
    let c = Uuid::new_v4();
    let columns = vec![
        BoardColumn { id: a, board_id: other },
        BoardColumn { id: b, board_id: board },
        BoardColumn { id: c, board_id: board },
    ];
    assert!(matches!(new_card_column(&columns, Some(c), board), NewCardColumn::Existing(x) if x == c));
    assert!(matches!(new_card_column(&columns, None, board), NewCardColumn::Existing(x) if x == b));
    assert!(matches!(new_card_column(&columns, Some(Uuid::new_v4()), board), NewCardColumn::CreateFirst));
    assert!(matches!(new_card_column(&columns, None, Uuid::new_v4()), NewCardColumn::CreateFirst));
    assert!(matches!(new_card_column(&vec![], None, board), NewCardColumn::CreateFirst));
}

#[test]
fn newest_card_of_a_column_is_the_last_one() {
    let col = Uuid::new_v4();
    let other = Uuid::new_v4();
    let ids: Vec<Uuid> = (0..3).map(|_| Uuid::new_v4()).collect();
    let cards = vec![
        CardRef { id: ids[0], column_id: col },
        CardRef { id: ids[1], column_id: col },
        CardRef { id: ids[2], column_id: other },
    ];
    assert_eq!(last_card_in_column(&cards, col), Some(ids[1]));
    assert_eq!(last_card_in_column(&cards, other), Some(ids[2]));
    assert_eq!(last_card_in_column(&cards, Uuid::new_v4()), None);
}

#[test]
fn help_screen_keys() {
    let bindings: Vec<String> = vec!["j/↓".to_string(), "n".to_string(), "Enter".to_string(), "/".to_string()];
    assert_eq!(route_help_key(KeyInput::Char('j'), &bindings, Some(0)), HelpCommand::Down);
    assert_eq!(route_help_key(KeyInput::Up, &bindings, Some(0)), HelpCommand::Up);
    assert_eq!(route_help_key(KeyInput::Char('l'), &bindings, Some(0)), HelpCommand::ClearPending);
    assert_eq!(route_help_key(KeyInput::Enter, &bindings, Some(1)), HelpCommand::Run(1));
    assert_eq!(route_help_key(KeyInput::Enter, &bindings, Some(9)), HelpCommand::ClearPending);
    assert_eq!(route_help_key(KeyInput::Enter, &bindings, None), HelpCommand::ClearPending);
    assert_eq!(route_help_key(KeyInput::Esc, &bindings, None), HelpCommand::Close);
    assert_eq!(route_help_key(KeyInput::Char('?'), &bindings, None), HelpCommand::Close);
    assert_eq!(route_help_key(KeyInput::Char('n'), &bindings, None), HelpCommand::JumpTo(1));
    assert_eq!(route_help_key(KeyInput::Char('/'), &bindings, None), HelpCommand::JumpTo(3));
    assert_eq!(route_help_key(KeyInput::Char('z'), &bindings, None), HelpCommand::Nothing);
}

#[test]
fn help_returns_to_the_view_it_covered() {
    let help = AppMode::Help(Box::new(AppMode::Dialog(DialogMode::CreateCard)));
    assert_eq!(mode_after_help(&help), AppMode::Dialog(DialogMode::CreateCard));
    assert_eq!(mode_after_help(&AppMode::Search), AppMode::Normal);
}

#[test]
fn dialog_names_are_trimmed_and_blank_ones_refused() {
    assert_eq!(entity_name("  In Review \t"), Some("In Review".to_string()));
    assert_eq!(entity_name("Done"), Some("Done".to_string()));
    assert_eq!(entity_name("   "), None);
    assert_eq!(entity_name(""), None);
}

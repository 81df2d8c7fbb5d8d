use kanban_tui::card_detail::{go_back, open_related, related_card_target, relationship_candidates, board_relationship_candidates, CardRef};
use kanban_tui::export::ColumnKey;
use kanban_tui::sprint_lifecycle::{sprint_duration_days, sprint_transition, SprintAction, SprintStatus};
use kanban_tui::app_state::{BoardFocus, CardFocus, SprintTaskPanel};
use kanban_tui::board_detail::{route_board_detail_key, BoardCounts, BoardDetailCommand, BoardDetailNav};
use kanban_tui::card_detail::{route_card_detail_key, CardDetailCommand, CardDetailNav};
use kanban_tui::card_list_component::CardListAction;
use kanban_tui::generic_list::ListComponent;
use kanban_tui::keys::KeyInput;
use kanban_tui::selection::SelectionState;
use kanban_tui::sprint_detail::{
    route_sprint_detail_key, sprint_list_command, toggle_sort_order, SortOrder, SprintDetailCommand,
    SprintListCommand,
};
use uuid::Uuid;

fn board_nav(focus: BoardFocus) -> BoardDetailNav {
    BoardDetailNav {
        focus,
        sprint_selection: SelectionState { selected: Some(0) },
        column_selection: SelectionState { selected: Some(0) },
    }
}

#[test]
fn board_detail_walks_panels_sprints_and_columns() {
    let counts = Some(BoardCounts { sprints: 2, columns: 3 });
    let mut s = board_nav(BoardFocus::Name);
    s.navigate_down(counts);
    assert_eq!(s.focus, BoardFocus::Description);
    s.navigate_down(counts);
    assert_eq!(s.focus, BoardFocus::Settings);
    s.navigate_down(counts);
    assert_eq!(s.focus, BoardFocus::Sprints);
    assert_eq!(s.sprint_selection.selected, Some(0));
    s.navigate_down(counts);
    assert_eq!(s.sprint_selection.selected, Some(1));
    s.navigate_down(counts);
    assert_eq!(s.focus, BoardFocus::Columns);
    assert_eq!(s.column_selection.selected, Some(0));
    s.navigate_up(counts);
    assert_eq!(s.focus, BoardFocus::Sprints);
    assert_eq!(s.sprint_selection.selected, Some(1));
    s.focus = BoardFocus::Columns;
    s.column_selection.selected = Some(2);
    s.navigate_down(counts);
    assert_eq!(s.focus, BoardFocus::Name);
    assert_eq!(s.sprint_selection.selected, Some(0));
    s.navigate_up(counts);
    assert_eq!(s.focus, BoardFocus::Columns);
    assert_eq!(s.column_selection.selected, Some(0));
}

#[test]
fn board_detail_without_sprints_or_board() {
    let none = Some(BoardCounts { sprints: 0, columns: 2 });
    let mut s = board_nav(BoardFocus::Columns);
    s.navigate_up(none);
    assert_eq!(s.focus, BoardFocus::Settings);
    let mut t = board_nav(BoardFocus::Sprints);
    t.navigate_down(None);
    assert_eq!(t, board_nav(BoardFocus::Sprints));
}

#[test]
fn board_detail_keys() {
    assert_eq!(route_board_detail_key(KeyInput::Esc, BoardFocus::Name), BoardDetailCommand::Close);
    assert_eq!(route_board_detail_key(KeyInput::Char('4'), BoardFocus::Name), BoardDetailCommand::Focus(BoardFocus::Sprints));
    assert_eq!(route_board_detail_key(KeyInput::Char('e'), BoardFocus::Description), BoardDetailCommand::EditDescription);
    assert_eq!(route_board_detail_key(KeyInput::Char('e'), BoardFocus::Sprints), BoardDetailCommand::Nothing);
    assert_eq!(route_board_detail_key(KeyInput::Char('n'), BoardFocus::Sprints), BoardDetailCommand::CreateSprint);
    assert_eq!(route_board_detail_key(KeyInput::Char('s'), BoardFocus::Sprints), BoardDetailCommand::CreateSprint);
    assert_eq!(route_board_detail_key(KeyInput::Char('n'), BoardFocus::Columns), BoardDetailCommand::CreateColumn);
    assert_eq!(route_board_detail_key(KeyInput::Char('s'), BoardFocus::Columns), BoardDetailCommand::Nothing);
    assert_eq!(route_board_detail_key(KeyInput::Char('r'), BoardFocus::Columns), BoardDetailCommand::RenameColumn);
    assert_eq!(route_board_detail_key(KeyInput::Char('r'), BoardFocus::Name), BoardDetailCommand::Nothing);
    assert_eq!(route_board_detail_key(KeyInput::Char('J'), BoardFocus::Columns), BoardDetailCommand::MoveColumnDown);
    assert_eq!(route_board_detail_key(KeyInput::Char('K'), BoardFocus::Columns), BoardDetailCommand::MoveColumnUp);
    assert_eq!(route_board_detail_key(KeyInput::Char('d'), BoardFocus::Columns), BoardDetailCommand::DeleteColumn);
    assert_eq!(route_board_detail_key(KeyInput::Enter, BoardFocus::Sprints), BoardDetailCommand::OpenSprint);
    assert_eq!(route_board_detail_key(KeyInput::Enter, BoardFocus::Name), BoardDetailCommand::Nothing);
    assert_eq!(route_board_detail_key(KeyInput::Char('p'), BoardFocus::Settings), BoardDetailCommand::SetBranchPrefix);
    assert_eq!(route_board_detail_key(KeyInput::Down, BoardFocus::Settings), BoardDetailCommand::NavigateDown);
}

fn list(count: usize, sel: Option<usize>) -> ListComponent {
    let mut l = ListComponent::new(false);
    l.update_item_count(count);
    l.set_selected_index(sel);
    l
}

#[test]
fn card_detail_moves_through_sections_and_lists() {
    let mut nav = CardDetailNav { focus: CardFocus::Title, parents_list: list(2, None), children_list: list(2, None) };
    nav.parents_list.selection.clear();
    nav.children_list.selection.clear();
    nav.navigate_down(2, 2);
    assert_eq!(nav.focus, CardFocus::Metadata);
    nav.navigate_down(2, 2);
    nav.navigate_down(2, 2);
    assert_eq!(nav.focus, CardFocus::Parents);
    nav.parents_list.set_selected_index(Some(0));
    nav.navigate_down(2, 2);
    assert_eq!(nav.focus, CardFocus::Parents);
    assert_eq!(nav.parents_list.get_selected_index(), Some(1));
    nav.navigate_down(2, 2);
    assert_eq!(nav.focus, CardFocus::Children);
    assert_eq!(nav.parents_list.get_selected_index(), None);
    assert_eq!(nav.children_list.get_selected_index(), Some(0));
    nav.navigate_up(2, 2);
    assert_eq!(nav.focus, CardFocus::Parents);
    assert_eq!(nav.children_list.get_selected_index(), None);
    assert_eq!(nav.parents_list.get_selected_index(), Some(1));
    nav.navigate_up(2, 2);
    nav.navigate_up(2, 2);
    assert_eq!(nav.focus, CardFocus::Description);
    assert_eq!(nav.parents_list.get_selected_index(), None);
}

#[test]
fn card_detail_skips_empty_lists() {
    let mut nav = CardDetailNav { focus: CardFocus::Parents, parents_list: list(0, None), children_list: list(0, None) };
    nav.navigate_down(0, 0);
    assert_eq!(nav.focus, CardFocus::Children);
    nav.navigate_down(0, 0);
    assert_eq!(nav.focus, CardFocus::Title);
    nav.navigate_up(0, 0);
    assert_eq!(nav.focus, CardFocus::Children);
    nav.navigate_up(0, 0);
    assert_eq!(nav.focus, CardFocus::Parents);
    nav.navigate_up(0, 0);
    assert_eq!(nav.focus, CardFocus::Description);
}

#[test]
fn card_detail_keys() {
    assert_eq!(route_card_detail_key(KeyInput::Esc, CardFocus::Title), CardDetailCommand::Close);
    assert_eq!(route_card_detail_key(KeyInput::Char('5'), CardFocus::Title), CardDetailCommand::Focus(CardFocus::Children));
    assert_eq!(route_card_detail_key(KeyInput::Char('e'), CardFocus::Title), CardDetailCommand::EditTitle);
    assert_eq!(route_card_detail_key(KeyInput::Char('e'), CardFocus::Metadata), CardDetailCommand::EditMetadata);
    assert_eq!(route_card_detail_key(KeyInput::Char('e'), CardFocus::Parents), CardDetailCommand::Nothing);
    assert_eq!(route_card_detail_key(KeyInput::Enter, CardFocus::Parents), CardDetailCommand::OpenSelectedParent);
    assert_eq!(route_card_detail_key(KeyInput::Enter, CardFocus::Children), CardDetailCommand::OpenSelectedChild);
    assert_eq!(route_card_detail_key(KeyInput::Enter, CardFocus::Title), CardDetailCommand::Nothing);
    assert_eq!(route_card_detail_key(KeyInput::Backspace, CardFocus::Children), CardDetailCommand::Back);
    assert_eq!(route_card_detail_key(KeyInput::Backspace, CardFocus::Description), CardDetailCommand::Nothing);
    assert_eq!(route_card_detail_key(KeyInput::Char('h'), CardFocus::Parents), CardDetailCommand::Back);
    assert_eq!(route_card_detail_key(KeyInput::Char('h'), CardFocus::Title), CardDetailCommand::Nothing);
    assert_eq!(route_card_detail_key(KeyInput::Char('y'), CardFocus::Title), CardDetailCommand::CopyBranchName);
    assert_eq!(route_card_detail_key(KeyInput::Char('Y'), CardFocus::Title), CardDetailCommand::CopyCheckoutCommand);
    assert_eq!(route_card_detail_key(KeyInput::Char('P'), CardFocus::Title), CardDetailCommand::SetPriority);
    assert_eq!(route_card_detail_key(KeyInput::Char('R'), CardFocus::Title), CardDetailCommand::ManageChildren);
}

#[test]
fn sprint_detail_keys() {
    assert_eq!(route_sprint_detail_key(KeyInput::Esc, Some(false)), SprintDetailCommand::Close);
    assert_eq!(route_sprint_detail_key(KeyInput::Char('a'), Some(false)), SprintDetailCommand::ActivateSprint);
    assert_eq!(route_sprint_detail_key(KeyInput::Char('c'), Some(false)), SprintDetailCommand::CompleteSprint);
    assert_eq!(route_sprint_detail_key(KeyInput::Char('x'), Some(false)), SprintDetailCommand::CancelSprint);
    assert_eq!(route_sprint_detail_key(KeyInput::Char('p'), Some(false)), SprintDetailCommand::EditSprintPrefix);
    assert_eq!(route_sprint_detail_key(KeyInput::Char('p'), None), SprintDetailCommand::Nothing);
    assert_eq!(route_sprint_detail_key(KeyInput::Char('C'), Some(true)), SprintDetailCommand::EditSprintCardPrefix);
    assert_eq!(route_sprint_detail_key(KeyInput::Char('l'), Some(true)), SprintDetailCommand::FocusPanel(SprintTaskPanel::Completed));
    assert_eq!(route_sprint_detail_key(KeyInput::Left, Some(true)), SprintDetailCommand::FocusPanel(SprintTaskPanel::Uncompleted));
    assert_eq!(route_sprint_detail_key(KeyInput::Char('l'), Some(false)), SprintDetailCommand::Nothing);
    assert_eq!(route_sprint_detail_key(KeyInput::Char('j'), Some(false)), SprintDetailCommand::ListKey);
    assert_eq!(route_sprint_detail_key(KeyInput::Enter, Some(false)), SprintDetailCommand::ListKey);
}

#[test]
fn sort_order_toggles() {
    assert_eq!(toggle_sort_order(Some(SortOrder::Ascending)), Some(SortOrder::Descending));
    assert_eq!(toggle_sort_order(toggle_sort_order(Some(SortOrder::Ascending))), Some(SortOrder::Ascending));
    assert_eq!(toggle_sort_order(None), None);
}

#[test]
fn sprint_list_actions() {
    let id = Uuid::new_v4();
    assert_eq!(sprint_list_command(CardListAction::Edit(id), true), SprintListCommand::OpenCard(id));
    assert_eq!(sprint_list_command(CardListAction::Select(id), true), SprintListCommand::OpenCard(id));
    assert_eq!(sprint_list_command(CardListAction::ReassignSprint(id), true), SprintListCommand::AssignSprint(id));
    assert_eq!(sprint_list_command(CardListAction::AssignSprint(id), false), SprintListCommand::Nothing);
    assert_eq!(sprint_list_command(CardListAction::OrderCards, false), SprintListCommand::ToggleSortOrder);
    assert_eq!(sprint_list_command(CardListAction::MoveColumn(id, true), false), SprintListCommand::MoveCard(id, true));
}

#[test]
fn sprint_lifecycle() {
    assert_eq!(sprint_transition(SprintStatus::Planning, SprintAction::Activate), Some(SprintStatus::Active));
    assert_eq!(sprint_transition(SprintStatus::Active, SprintAction::Activate), None);
    assert_eq!(sprint_transition(SprintStatus::Active, SprintAction::Complete), Some(SprintStatus::Completed));
    assert_eq!(sprint_transition(SprintStatus::Planning, SprintAction::Complete), Some(SprintStatus::Completed));
    assert_eq!(sprint_transition(SprintStatus::Completed, SprintAction::Complete), None);
    assert_eq!(sprint_transition(SprintStatus::Completed, SprintAction::Activate), None);
    assert_eq!(sprint_transition(SprintStatus::Active, SprintAction::Cancel), Some(SprintStatus::Cancelled));
    assert_eq!(sprint_transition(SprintStatus::Planning, SprintAction::Cancel), Some(SprintStatus::Cancelled));
    assert_eq!(sprint_transition(SprintStatus::Completed, SprintAction::Cancel), None);
    assert_eq!(sprint_transition(SprintStatus::Cancelled, SprintAction::Activate), None);
    assert_eq!(sprint_transition(SprintStatus::Cancelled, SprintAction::Complete), None);
    assert_eq!(sprint_duration_days(None), 14);
    assert_eq!(sprint_duration_days(Some(7)), 7);
}

#[test]
fn related_cards_and_back() {
    let cards: Vec<Uuid> = (0..4).map(|_| Uuid::new_v4()).collect();
    let missing = Uuid::new_v4();
    let related = vec![missing, cards[2], cards[3]];
    assert_eq!(related_card_target(&related, Some(2), &cards), Some(3));
    assert_eq!(related_card_target(&related, Some(0), &cards), None, "first related card is missing too");
    assert_eq!(related_card_target(&related, None, &cards), None);
    let related2 = vec![cards[1], cards[2]];
    assert_eq!(related_card_target(&related2, Some(7), &cards), Some(1));
    assert_eq!(related_card_target(&vec![], Some(0), &cards), None);

    let mut history = vec![0];
    let open = open_related(&mut history, 1, Some(3));
    assert_eq!(open, 3);
    assert_eq!(history, vec![0, 1]);
    assert_eq!(go_back(&mut history), Some(1), "back returns to the card the related one was opened from");
    assert_eq!(history, vec![0]);
    assert_eq!(open_related(&mut history, 2, None), 2);
    assert_eq!(history, vec![0]);
    go_back(&mut history);
    assert_eq!(go_back(&mut history), None);
}

#[test]
fn relationship_candidates_stay_on_the_board_and_skip_cycles() {
    let board = Uuid::new_v4();
    let other_board = Uuid::new_v4();
    let todo = Uuid::new_v4();
    let done = Uuid::new_v4();
    let elsewhere = Uuid::new_v4();
    let columns = vec![
        ColumnKey { id: todo, board_id: board },
        ColumnKey { id: done, board_id: board },
        ColumnKey { id: elsewhere, board_id: other_board },
    ];
    let ids: Vec<Uuid> = (0..5).map(|_| Uuid::new_v4()).collect();
    let cards = vec![
        CardRef { id: ids[0], column_id: todo },
        CardRef { id: ids[1], column_id: done },
        CardRef { id: ids[2], column_id: elsewhere },
        CardRef { id: ids[3], column_id: todo },
        CardRef { id: ids[4], column_id: done },
    ];
    let excluded = vec![ids[4]];
    let got = relationship_candidates(&cards, &columns, ids[0], todo, &excluded);
    assert_eq!(got, Some(vec![ids[1], ids[3]]), "the card itself, other boards and excluded cards are left out");
    let none_excluded = relationship_candidates(&cards, &columns, ids[2], elsewhere, &vec![]);
    assert_eq!(none_excluded, Some(vec![]), "no other card shares the other board");
    assert_eq!(relationship_candidates(&cards, &columns, ids[0], Uuid::new_v4(), &vec![]), None);
    assert_eq!(
        board_relationship_candidates(&cards, &columns, ids[3], board, &vec![ids[0]]),
        vec![ids[1], ids[4]],
        "children candidates leave out the card and its ancestors"
    );
    assert_eq!(board_relationship_candidates(&cards, &columns, ids[0], Uuid::new_v4(), &vec![]), Vec::<Uuid>::new());
}

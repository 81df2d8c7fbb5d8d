use kanban_tui::card_list::{CardList, CardListId};
use uuid::Uuid;

fn create_list_with_cards(count: usize) -> CardList {
    let cards = (0..count).map(|_| Uuid::new_v4()).collect();
    CardList::with_cards(CardListId::All, cards)
}

#[test]
fn test_empty_list_render_info() {
    let list = CardList::new(CardListId::All);
    let info = list.get_render_info(10);

    assert!(info.visible_card_indices.is_empty());
    assert!(!info.show_above_indicator);
    assert!(!info.show_below_indicator);
    assert_eq!(info.cards_above_count, 0);
    assert_eq!(info.cards_below_count, 0);
}

#[test]
fn test_single_card_no_scrolling() {
    let list = create_list_with_cards(1);
    let info = list.get_render_info(10);

    assert_eq!(info.visible_card_indices, vec![0]);
    assert!(!info.show_above_indicator);
    assert!(!info.show_below_indicator);
    assert_eq!(info.cards_below_count, 0);
}

#[test]
fn test_viewport_exactly_fits_cards() {
    let list = create_list_with_cards(5);
    let info = list.get_render_info(5);

    assert_eq!(info.visible_card_indices, vec![0, 1, 2, 3, 4]);
    assert!(!info.show_above_indicator);
    assert!(!info.show_below_indicator);
}

#[test]
fn test_cards_below_indicator() {
    let list = create_list_with_cards(10);
    let info = list.get_render_info(5);

    assert_eq!(info.visible_card_indices, vec![0, 1, 2, 3]);
    assert!(!info.show_above_indicator);
    assert!(info.show_below_indicator);
    assert_eq!(info.cards_below_count, 6);
}

#[test]
fn test_cards_above_and_below_indicators() {
    let mut list = create_list_with_cards(16);
    list.scroll_offset = 6;

    let info = list.get_render_info(10);

    assert!(info.show_above_indicator);
    assert_eq!(info.cards_above_count, 6);
    assert!(info.show_below_indicator);
    assert_eq!(info.cards_below_count, 2);
}

#[test]
fn test_bug_scenario_card_15_visibility() {
    let mut list = create_list_with_cards(16);
    list.scroll_offset = 6;

    let info = list.get_render_info(10);

    let last_visible = *info.visible_card_indices.last().unwrap();
    assert_eq!(last_visible, 13);
    assert_eq!(info.cards_below_count, 2);

    assert!(
        info.show_below_indicator,
        "Should show indicator for cards 14 and 15"
    );
}

#[test]
fn test_scroll_to_last_card_visible() {
    let mut list = create_list_with_cards(16);
    list.scroll_offset = 15;

    let info = list.get_render_info(10);

    assert_eq!(info.visible_card_indices, vec![15]);
    assert!(info.show_above_indicator);
    assert!(!info.show_below_indicator);
    assert_eq!(info.cards_below_count, 0);
}

#[test]
fn test_viewport_height_accounting_for_indicators() {
    let mut list = create_list_with_cards(20);
    list.scroll_offset = 5;

    let info = list.get_render_info(10);

    assert!(info.show_above_indicator);
    assert!(info.show_below_indicator);

    let cards_shown = info.visible_card_indices.len();
    assert_eq!(cards_shown, 8);
}

#[test]
fn test_navigate_down_from_middle() {
    let mut list = create_list_with_cards(20);
    list.selection.set(Some(5));

    list.navigate_down(10);

    assert_eq!(list.get_selected_index(), Some(6));
    assert_eq!(list.scroll_offset, 0);
}

#[test]
fn test_navigate_down_triggers_scroll() {
    let mut list = create_list_with_cards(20);
    list.selection.set(Some(8));
    list.scroll_offset = 0;

    list.navigate_down(10);

    assert_eq!(list.scroll_offset, 2);
    assert_eq!(list.get_selected_index(), Some(9));
}

#[test]
fn test_navigate_up_from_middle() {
    let mut list = create_list_with_cards(20);
    list.selection.set(Some(5));
    list.scroll_offset = 0;

    list.navigate_up(10);

    assert_eq!(list.get_selected_index(), Some(4));
}

#[test]
fn test_navigate_up_triggers_scroll() {
    let mut list = create_list_with_cards(20);
    list.selection.set(Some(5));
    list.scroll_offset = 5;

    list.navigate_up(10);

    assert_eq!(list.scroll_offset, 4);
}

#[test]
fn test_clamp_selection_with_above_indicator() {
    let mut list = create_list_with_cards(20);
    list.selection.set(Some(0));
    list.scroll_offset = 5;

    list.clamp_selection_to_visible(10);

    assert!(list.get_selected_index().unwrap() >= 5);
}

#[test]
fn test_render_info_indices_are_valid() {
    let mut list = create_list_with_cards(20);
    list.scroll_offset = 8;

    let info = list.get_render_info(7);

    for idx in &info.visible_card_indices {
        assert!(*idx < list.cards.len(), "Index {} out of bounds", idx);
    }
}

#[test]
fn test_navigate_to_last_card_with_many_cards_above() {
    let mut list = create_list_with_cards(93);
    list.scroll_offset = 46;
    list.selection.set(Some(92));

    let info = list.get_render_info(48);
    assert_eq!(info.cards_above_count, 46);
    assert!(
        !info.show_below_indicator,
        "Last card should have no 'below' indicator"
    );

    list.navigate_down(48);

    assert_eq!(
        list.get_selected_index(),
        Some(92),
        "Should stay at last card (92)"
    );
}

#[test]
fn test_select_all_cards_from_start_to_end() {
    let mut list = create_list_with_cards(93);
    list.selection.set(Some(0));

    for _ in 0..92 {
        let before_idx = list.get_selected_index();
        list.navigate_down(48);
        let after_idx = list.get_selected_index();

        if before_idx.is_some() && after_idx.is_some() {
            assert!(
                after_idx.unwrap() >= before_idx.unwrap(),
                "Selection should move down or stay"
            );
        }
    }

    assert_eq!(
        list.get_selected_index(),
        Some(92),
        "Should reach the last card"
    );
}

#[test]
fn test_indicator_space_changes_on_scroll_boundary() {
    let mut list = create_list_with_cards(93);
    list.scroll_offset = 45;
    list.selection.set(Some(92));

    let info_before = list.get_render_info(50);
    assert!(
        info_before.show_above_indicator,
        "Should have 'above' indicator"
    );

    let has_below_before = info_before.show_below_indicator;

    list.navigate_down(50);

    let info_after = list.get_render_info(50);
    assert!(
        info_after.show_above_indicator,
        "Should still have 'above' indicator"
    );

    assert_eq!(
        list.get_selected_index(),
        Some(92),
        "Should stay at last card"
    );

    if has_below_before {
        assert!(
            !info_after.show_below_indicator,
            "Below indicator should disappear at the end"
        );
    }
}

#[test]
fn test_scroll_through_all_117_cards() {
    let mut list = create_list_with_cards(117);
    list.selection.set(Some(0));

    let mut iterations = 0;
    while list.get_selected_index() != Some(116) && iterations < 200 {
        list.navigate_down(48);
        iterations += 1;
    }

    assert_eq!(
        list.get_selected_index(),
        Some(116),
        "Should reach card 116 after {} iterations",
        iterations
    );
    assert!(
        iterations < 120,
        "Should reach last card in reasonable iterations"
    );
}

use kanban_tui::generic_list::ListComponent;

fn create_test_list(item_count: usize) -> ListComponent {
    let mut list = ListComponent::new(false);
    list.update_item_count(item_count);
    list
}

#[test]
fn test_navigate_down() {
    let mut list = create_test_list(5);
    assert_eq!(list.get_selected_index(), Some(0));

    list.navigate_down();
    assert_eq!(list.get_selected_index(), Some(1));

    list.navigate_down();
    assert_eq!(list.get_selected_index(), Some(2));
}

#[test]
fn test_navigate_up() {
    let mut list = create_test_list(5);
    list.set_selected_index(Some(2));

    list.navigate_up();
    assert_eq!(list.get_selected_index(), Some(1));

    list.navigate_up();
    assert_eq!(list.get_selected_index(), Some(0));
}

#[test]
fn test_navigate_down_at_boundary() {
    let mut list = create_test_list(5);
    list.set_selected_index(Some(4));

    let was_at_bottom = list.navigate_down();
    assert!(was_at_bottom);
    assert_eq!(list.get_selected_index(), Some(4));
}

#[test]
fn test_navigate_up_at_boundary() {
    let mut list = create_test_list(5);
    list.set_selected_index(Some(0));

    let was_at_top = list.navigate_up();
    assert!(was_at_top);
    assert_eq!(list.get_selected_index(), Some(0));
}

#[test]
fn test_multi_select() {
    let mut list = ListComponent::new(true);
    list.update_item_count(5);

    list.toggle_multi_select(1);
    list.toggle_multi_select(3);

    assert!(list.multi_selected.contains(&1));
    assert!(list.multi_selected.contains(&3));
    assert_eq!(list.get_multi_selected_indices(), vec![1, 3]);
}

#[test]
fn test_clear_multi_select() {
    let mut list = ListComponent::new(true);
    list.update_item_count(5);
    list.toggle_multi_select(1);
    list.toggle_multi_select(3);

    list.clear_multi_select();
    assert_eq!(list.get_multi_selected_indices().len(), 0);
}

#[test]
fn test_select_all() {
    let mut list = ListComponent::new(true);
    list.update_item_count(5);

    list.select_all();
    assert_eq!(list.get_multi_selected_indices().len(), 5);
}

#[test]
fn test_empty_list() {
    let mut list = create_test_list(0);
    assert_eq!(list.get_selected_index(), None);

    list.navigate_down();
    assert_eq!(list.get_selected_index(), None);

    list.navigate_up();
    assert_eq!(list.get_selected_index(), None);
}

#[test]
fn test_update_item_count_keeps_selection() {
    let mut list = create_test_list(5);
    list.set_selected_index(Some(2));

    list.update_item_count(10);
    assert_eq!(list.get_selected_index(), Some(2));
}

#[test]
fn test_update_item_count_clamps_selection() {
    let mut list = create_test_list(10);
    list.set_selected_index(Some(8));

    list.update_item_count(5);
    assert_eq!(list.get_selected_index(), Some(4));
}

#[test]
fn test_render_info_basic() {
    let list = create_test_list(5);
    let info = list.get_render_info(3);

    assert!(!info.show_above_indicator);
    assert_eq!(info.visible_item_indices, vec![0, 1, 2]);
    assert!(info.show_below_indicator);
}

#[test]
fn test_render_info_with_scroll() {
    let mut list = create_test_list(10);
    list.set_scroll_offset(3);

    let info = list.get_render_info(3);
    assert!(info.show_above_indicator);
    assert_eq!(info.items_above_count, 3);
}

#[test]
fn test_multi_select_disabled() {
    let mut list = ListComponent::new(false);
    list.update_item_count(5);

    list.toggle_multi_select(1);
    assert!(list.multi_selected.is_empty());
}

#[test]
fn test_jump_to() {
    let mut list = create_test_list(10);
    list.jump_to(5);
    assert_eq!(list.get_selected_index(), Some(5));
}

#[test]
fn test_ensure_selected_visible() {
    let mut list = create_test_list(20);
    list.jump_to(15);
    list.ensure_selected_visible(5);

    let info = list.get_render_info(5);
    assert!(info.visible_item_indices.contains(&15));
}

#[test]
fn multi_select_toggle_twice_removes_index() {
    let mut list = ListComponent::new(true);
    list.update_item_count(4);
    list.toggle_multi_select(2);
    list.toggle_multi_select(2);
    assert!(list.get_multi_selected_indices().is_empty());
    list.toggle_multi_select(7);
    assert!(list.get_multi_selected_indices().is_empty());
}

#[test]
fn multi_selected_indices_come_sorted() {
    let mut list = ListComponent::new(true);
    list.update_item_count(10);
    for i in [7, 2, 9, 0, 5] {
        list.toggle_multi_select(i);
    }
    assert_eq!(list.get_multi_selected_indices(), vec![0, 2, 5, 7, 9]);
}

#[test]
fn navigate_up_scrolls_to_selection() {
    let mut list = create_test_list(20);
    list.jump_to(10);
    list.set_scroll_offset(10);
    assert!(!list.navigate_up());
    assert_eq!(list.get_selected_index(), Some(9));
    assert_eq!(list.get_scroll_offset(), 9);
}

#[test]
fn update_item_count_to_zero_clears_selection() {
    let mut list = create_test_list(3);
    list.update_item_count(0);
    assert_eq!(list.get_selected_index(), None);
    assert!(list.is_empty());
    assert_eq!(list.len(), 0);
}

use kanban_tui::keys::KeyInput;
use kanban_tui::sprint_picker::{
    next_selectable, prev_selectable, Cursor, Selection, SprintEntry, SprintFilter, SprintPicker,
    SprintPickerView,
};
use uuid::Uuid;

// Rows as the host lays them out: "(None)", then the active/planned section
// (header, newest sprint first), then, for pickers that show them, the
// finished section.

fn sprint_row(id: Uuid, active_now: bool) -> SprintEntry {
    SprintEntry::Sprint { id, active_now }
}

fn cursor_sprint_id(picker: &SprintPicker) -> Option<Uuid> {
    match picker.cursor {
        Cursor::NoSprint => None,
        Cursor::Sprint(id) => Some(id),
    }
}

fn sprint_id_of(e: &SprintEntry) -> Option<Uuid> {
    match e {
        SprintEntry::Sprint { id, .. } => Some(*id),
        _ => None,
    }
}

#[test]
fn test_reset_with_sole_active_sprint_pre_checks_it() {
    let sprint = Uuid::new_v4();
    let entries = vec![SprintEntry::NoSprint, SprintEntry::Header, sprint_row(sprint, true)];

    let mut picker = SprintPicker::new();
    picker.reset_for_board(&entries);

    assert_eq!(picker.selected_sprint_id(), Some(sprint));
    assert_eq!(picker.selection, Selection::Sprint(sprint));
    assert_eq!(cursor_sprint_id(&picker), Some(sprint));
}

#[test]
fn test_space_on_already_checked_row_unchecks_it() {
    let sprint = Uuid::new_v4();
    let entries = vec![SprintEntry::NoSprint, SprintEntry::Header, sprint_row(sprint, true)];

    let mut picker = SprintPicker::new();
    picker.reset_for_board(&entries);
    assert_eq!(picker.selection, Selection::Sprint(sprint));

    picker.handle_key(KeyInput::Char(' '), &entries);
    assert_eq!(picker.selection, Selection::Unset);
    assert_eq!(picker.selected_sprint_id(), None);

    picker.handle_key(KeyInput::Char(' '), &entries);
    assert_eq!(picker.selection, Selection::Sprint(sprint));
}

#[test]
fn test_space_on_none_row_toggles_between_nosprint_and_unset() {
    let entries = vec![SprintEntry::NoSprint];

    let mut picker = SprintPicker::new();
    picker.reset_for_board(&entries);
    assert_eq!(picker.selection, Selection::Unset);

    picker.handle_key(KeyInput::Char(' '), &entries);
    assert_eq!(picker.selection, Selection::NoSprint);

    picker.handle_key(KeyInput::Char(' '), &entries);
    assert_eq!(picker.selection, Selection::Unset);
}

fn two_planning() -> (Uuid, Uuid, Vec<SprintEntry>) {
    let planning_a = Uuid::new_v4();
    let planning_b = Uuid::new_v4();
    let entries = vec![
        SprintEntry::NoSprint,
        SprintEntry::Header,
        sprint_row(planning_b, false),
        sprint_row(planning_a, false),
    ];
    (planning_a, planning_b, entries)
}

#[test]
fn test_arrow_moves_cursor_without_changing_selection() {
    let (_, _, entries) = two_planning();

    let mut picker = SprintPicker::new();
    picker.reset_for_board(&entries);
    let before_selection = picker.selection;

    picker.handle_key(KeyInput::Down, &entries);

    assert_eq!(
        picker.selection, before_selection,
        "Down must not flip a [x] on; only Space places one"
    );
}

#[test]
fn test_space_at_uncrossed_sprint_cursor_places_check_there() {
    let (_, _, entries) = two_planning();

    let mut picker = SprintPicker::new();
    picker.reset_for_board(&entries);
    assert_eq!(picker.selected_sprint_id(), None);
    assert_eq!(picker.selection, Selection::Unset);

    picker.handle_key(KeyInput::Down, &entries);
    let cursor_id = cursor_sprint_id(&picker).expect("cursor on sprint");
    picker.handle_key(KeyInput::Char(' '), &entries);

    assert_eq!(picker.selected_sprint_id(), Some(cursor_id));
}

#[test]
fn test_space_after_arrow_switches_check_to_new_cursor_sprint() {
    let (_, _, entries) = two_planning();

    let mut picker = SprintPicker::new();
    picker.reset_for_board(&entries);

    picker.handle_key(KeyInput::Down, &entries);
    picker.handle_key(KeyInput::Char(' '), &entries);
    let first_checked = picker.selected_sprint_id();
    assert!(first_checked.is_some());

    picker.handle_key(KeyInput::Down, &entries);
    picker.handle_key(KeyInput::Char(' '), &entries);
    let second_checked = picker.selected_sprint_id();
    assert!(second_checked.is_some());
    assert_ne!(
        first_checked, second_checked,
        "Space at a new cursor position must move [x] there"
    );
}

#[test]
fn test_space_on_none_row_marks_none_as_explicitly_chosen() {
    let sprint = Uuid::new_v4();
    let entries = vec![SprintEntry::NoSprint, SprintEntry::Header, sprint_row(sprint, true)];

    let mut picker = SprintPicker::new();
    picker.reset_for_board(&entries);
    picker.handle_key(KeyInput::Up, &entries);
    picker.handle_key(KeyInput::Char(' '), &entries);

    assert_eq!(picker.selection, Selection::NoSprint);
    assert_eq!(picker.selected_sprint_id(), None);
    assert!(picker.explicitly_unassigned());
}

#[test]
fn test_reset_with_no_active_sprint_parks_cursor_on_none_row() {
    let entries = vec![SprintEntry::NoSprint];

    let mut picker = SprintPicker::new();
    picker.reset_for_board(&entries);

    assert_eq!(picker.selected_sprint_id(), None);
    assert_eq!(picker.selection, Selection::Unset);
    assert_eq!(cursor_sprint_id(&picker), None);
}

#[test]
fn test_reset_with_multiple_active_sprints_parks_cursor_on_none_row() {
    let s1 = Uuid::new_v4();
    let s2 = Uuid::new_v4();
    let entries = vec![
        SprintEntry::NoSprint,
        SprintEntry::Header,
        sprint_row(s2, true),
        sprint_row(s1, true),
    ];

    let mut picker = SprintPicker::new();
    picker.reset_for_board(&entries);

    assert_eq!(picker.selected_sprint_id(), None);
    assert_eq!(picker.selection, Selection::Unset);
    assert_eq!(cursor_sprint_id(&picker), None);
}

#[test]
fn test_handle_key_down_moves_cursor_returns_true() {
    let (_, _, entries) = two_planning();

    let mut picker = SprintPicker::new();
    picker.reset_for_board(&entries);
    let before = cursor_sprint_id(&picker);

    let consumed = picker.handle_key(KeyInput::Down, &entries);
    let after = cursor_sprint_id(&picker);

    assert!(consumed, "Down should be consumed by the picker");
    assert_ne!(before, after, "Down should advance the cursor");
}

#[test]
fn test_handle_key_other_returns_false_so_host_can_handle_it() {
    let entries = vec![SprintEntry::NoSprint];

    let mut picker = SprintPicker::new();
    picker.reset_for_board(&entries);

    assert!(!picker.handle_key(KeyInput::Char('a'), &entries));
    assert!(!picker.handle_key(KeyInput::Enter, &entries));
    assert!(!picker.handle_key(KeyInput::Backspace, &entries));
}

#[test]
fn test_selection_survives_clock_advance_that_ends_the_selected_sprint() {
    let sprint_a = Uuid::new_v4();
    let sprint_b = Uuid::new_v4();
    // At open time A is active; at confirm time it has ended and sits in
    // the finished section.
    let entries_open = vec![
        SprintEntry::NoSprint,
        SprintEntry::Header,
        sprint_row(sprint_b, false),
        sprint_row(sprint_a, true),
    ];
    let entries_confirm = vec![
        SprintEntry::NoSprint,
        SprintEntry::Header,
        sprint_row(sprint_b, false),
        SprintEntry::Header,
        sprint_row(sprint_a, false),
    ];

    let mut picker = SprintPicker::new();
    picker.reset_for_board(&entries_open);
    assert_eq!(picker.selected_sprint_id(), Some(sprint_a));
    assert_eq!(picker.selection, Selection::Sprint(sprint_a));

    let idx_open = entries_open.iter().position(|e| sprint_id_of(e) == Some(sprint_a));
    let idx_confirm = entries_confirm.iter().position(|e| sprint_id_of(e) == Some(sprint_a));
    assert!(idx_open.is_some());
    assert!(idx_confirm.is_some());
    assert_ne!(
        idx_open, idx_confirm,
        "precondition: A's row position must differ between open and confirm"
    );

    assert_eq!(picker.current_index(&entries_confirm), idx_confirm);
    assert_eq!(picker.selected_sprint_id(), Some(sprint_a));
}

#[test]
fn test_picker_skips_completed_and_ended_sprints_during_navigation() {
    let active = Uuid::new_v4();
    let completed = Uuid::new_v4();
    // The create-card picker lists only the active/planned section.
    let entries = vec![SprintEntry::NoSprint, SprintEntry::Header, sprint_row(active, true)];

    let mut picker = SprintPicker::new();
    assert_eq!(picker.filter, SprintFilter::ActiveOnly);
    picker.reset_for_board(&entries);
    assert_eq!(cursor_sprint_id(&picker), Some(active));

    for _ in 0..3 {
        picker.handle_key(KeyInput::Down, &entries);
    }
    assert_ne!(
        cursor_sprint_id(&picker),
        Some(completed),
        "Down must not reach a completed sprint in the new-card picker"
    );
    assert_eq!(cursor_sprint_id(&picker), Some(active));
}

#[test]
fn test_clear_resets_selection_to_unset() {
    let sprint = Uuid::new_v4();
    let entries = vec![SprintEntry::NoSprint, SprintEntry::Header, sprint_row(sprint, true)];

    let mut picker = SprintPicker::new();
    picker.reset_for_board(&entries);
    assert_eq!(picker.selection, Selection::Sprint(sprint));

    picker.clear();
    assert_eq!(picker.selection, Selection::Unset);
}

#[test]
fn space_twice_restores_selection() {
    let (_, b, entries) = two_planning();
    let mut picker = SprintPicker::with_filter(SprintFilter::All);
    picker.reset_for_card_assignment(Some(b), &entries);
    assert_eq!(picker.selection, Selection::Sprint(b));
    let before = picker.selection;
    picker.handle_key(KeyInput::Char(' '), &entries);
    assert_ne!(picker.selection, before);
    picker.handle_key(KeyInput::Char(' '), &entries);
    assert_eq!(picker.selection, before);
}

#[test]
fn card_assignment_reset_follows_current_sprint() {
    let (a, _, entries) = two_planning();
    let mut picker = SprintPicker::with_filter(SprintFilter::All);

    picker.reset_for_card_assignment(Some(a), &entries);
    assert_eq!(cursor_sprint_id(&picker), Some(a));
    assert_eq!(picker.selection, Selection::Sprint(a));

    picker.reset_for_card_assignment(Some(Uuid::new_v4()), &entries);
    assert_eq!(picker.cursor, Cursor::NoSprint);
    assert_eq!(picker.selection, Selection::Unset);

    picker.reset_for_card_assignment(None, &entries);
    assert_eq!(picker.cursor, Cursor::NoSprint);
    assert_eq!(picker.selection, Selection::NoSprint);
    assert!(picker.explicitly_unassigned());
}

#[test]
fn selectable_rows_skip_headers() {
    let (a, b, entries) = two_planning();
    assert_eq!(next_selectable(&entries, None), Some(0));
    assert_eq!(next_selectable(&entries, Some(0)), Some(2));
    assert_eq!(next_selectable(&entries, Some(3)), None);
    assert_eq!(prev_selectable(&entries, Some(2)), Some(0));
    assert_eq!(prev_selectable(&entries, Some(0)), None);
    assert_eq!(prev_selectable(&entries, None), None);
    assert_eq!(sprint_id_of(&entries[2]), Some(b));
    assert_eq!(sprint_id_of(&entries[3]), Some(a));
}

#[test]
fn picker_view_rows_and_values() {
    let (a, b, entries) = two_planning();
    let view = SprintPickerView::for_card_assignment(entries.clone(), Some(a));
    assert_eq!(view.len(), 4);
    assert!(!view.is_empty());
    assert_eq!(view.initial_selection(), Some(3));
    assert_eq!(view.value_at(0), Some(None));
    assert_eq!(view.value_at(1), None);
    assert_eq!(view.value_at(2), Some(Some(b)));
    assert_eq!(view.value_at(9), None);

    let board_view = SprintPickerView::for_board(entries);
    assert_eq!(board_view.initial_selection(), Some(0));
}

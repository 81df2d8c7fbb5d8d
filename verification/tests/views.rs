use kanban_tui::animation::{split_finished, AnimationType, RunningAnimation};
use kanban_tui::filters::toggle_sprint_filter;
use kanban_tui::app_state::{CreateCardFocus, SprintTaskPanel};
use kanban_tui::banner::{expired_after, Banner, BannerVariant};
use kanban_tui::board_context::{
    get_active_sprint_card_prefix_override, get_active_sprint_prefix_override, SprintPrefixes,
};
use kanban_tui::dialogs::{
    BulkPriorityDialog, CarryOverSprintDialog, DialogContext, PriorityDialog, SelectionDialog,
    SortFieldDialog, SprintAssignDialog, SprintSummary,
};
use kanban_tui::filters::{FilterDialogSection, FilterDialogState};
use kanban_tui::panel::{FieldSectionConfig, PanelConfig};
use kanban_tui::views::{DialogInputState, MultiSelectState, SelectionHub, SprintViewState, UiState};
use std::time::Duration;
use uuid::Uuid;

#[test]
fn filter_sections_cycle() {
    let mut d = FilterDialogState::new(42u32);
    assert_eq!(d.current_section, FilterDialogSection::Sprints);
    d.item_selection = 3;
    d.next_section();
    assert_eq!(d.current_section, FilterDialogSection::DateRange);
    assert_eq!(d.item_selection, 0);
    d.next_section();
    assert_eq!(d.current_section, FilterDialogSection::Tags);
    d.next_section();
    assert_eq!(d.current_section, FilterDialogSection::Sprints);
    assert_eq!(d.section_index, 0);
    d.prev_section();
    assert_eq!(d.current_section, FilterDialogSection::Tags);
    assert_eq!(d.section_index, 2);
    d.next_section();
    assert_eq!(d.section_index, 0, "Tab after Shift-Tab comes back");
    assert_eq!(d.filters, 42);
}

#[test]
fn panel_titles_follow_focus() {
    let p = PanelConfig::new("Cards").with_focus_indicator("> Cards");
    assert_eq!(p.title_text(), "Cards");
    let p = p.focused(true);
    assert_eq!(p.title_text(), "> Cards");
    let plain = PanelConfig::new("Plain").focused(true);
    assert_eq!(plain.title_text(), "Plain");
    let f = FieldSectionConfig::new("Title").with_focus_indicator("Title *").focused(true);
    assert_eq!(f.title_text(), "Title *");
    assert_eq!(f.focused(false).title_text(), "Title");
}

fn ctx(board: Option<Uuid>, sprints: Vec<SprintSummary>) -> DialogContext {
    DialogContext {
        priority_index: 2,
        sort_field_index: 5,
        carry_over_selection: None,
        sprint_selection_index: 1,
        active_board_id: board,
        sprints,
        sprint_entry_count: None,
    }
}

#[test]
fn selection_dialogs() {
    let board = Uuid::new_v4();
    let other = Uuid::new_v4();
    let sprints = vec![
        SprintSummary { board_id: board, planning: true },
        SprintSummary { board_id: board, planning: false },
        SprintSummary { board_id: other, planning: true },
        SprintSummary { board_id: board, planning: true },
    ];
    let mut c = ctx(Some(board), sprints);
    assert_eq!(PriorityDialog.title(), "Set Priority");
    assert_eq!(PriorityDialog.get_current_selection(&c), 2);
    assert_eq!(PriorityDialog.options_count(&c), 4);
    let bulk = BulkPriorityDialog { count: 3 };
    assert_eq!(bulk.title(), "Set Priority (Bulk)");
    assert_eq!(bulk.get_current_selection(&c), 0);
    assert_eq!(SortFieldDialog.title(), "Order Tasks By");
    assert_eq!(SortFieldDialog.get_current_selection(&c), 5);
    assert_eq!(SortFieldDialog.options_count(&c), 7);
    let carry = CarryOverSprintDialog { card_count: 2 };
    assert_eq!(carry.title(), "Carry Over to Sprint");
    assert_eq!(carry.get_current_selection(&c), 0);
    assert_eq!(carry.options_count(&c), 2);
    c.carry_over_selection = Some(1);
    assert_eq!(carry.get_current_selection(&c), 1);
    assert_eq!(SprintAssignDialog.title(), "Assign to Sprint");
    assert_eq!(SprintAssignDialog.get_current_selection(&c), 1);
    assert_eq!(SprintAssignDialog.options_count(&c), 1);
    c.sprint_entry_count = Some(6);
    assert_eq!(SprintAssignDialog.options_count(&c), 6);
    let none = ctx(None, vec![]);
    assert_eq!(carry.options_count(&none), 0);
}

#[test]
fn sprint_prefix_overrides() {
    let a = Uuid::new_v4();
    let b = Uuid::new_v4();
    let sprints = vec![
        SprintPrefixes { id: a, prefix: Some("SPR".to_string()), card_prefix: None },
        SprintPrefixes { id: b, prefix: None, card_prefix: Some("FIX".to_string()) },
    ];
    assert_eq!(get_active_sprint_prefix_override(Some(a), &sprints), Some("SPR"));
    assert_eq!(get_active_sprint_card_prefix_override(Some(a), &sprints), None);
    assert_eq!(get_active_sprint_card_prefix_override(Some(b), &sprints), Some("FIX"));
    assert_eq!(get_active_sprint_prefix_override(Some(b), &sprints), None);
    assert_eq!(get_active_sprint_prefix_override(None, &sprints), None);
    assert_eq!(get_active_sprint_card_prefix_override(Some(Uuid::new_v4()), &sprints), None);
}

#[test]
fn view_state_defaults() {
    let mut d = DialogInputState::default();
    assert!(d.import_files.is_empty());
    assert!(d.create_card_focus_is_title());
    d.toggle_create_card_focus();
    assert_eq!(d.create_card_focus, CreateCardFocus::Sprint);
    d.toggle_create_card_focus();
    assert_eq!(d.create_card_focus, CreateCardFocus::Title);
    d.toggle_create_card_focus();
    d.reset_create_card_focus();
    assert!(d.create_card_focus_is_title());

    let mut hub = SelectionHub::default();
    assert_eq!(hub.active_card_id, None);
    let id = Uuid::new_v4();
    hub.set_active_card(4, id);
    assert_eq!(hub.active_card_index, Some(4));
    assert_eq!(hub.active_card_id, Some(id));
    hub.clear_active_card();
    assert_eq!(hub.active_card_index, None);
    assert_eq!(hub.active_card_id, None);

    let m = MultiSelectState::new();
    assert!(m.selected_cards.is_empty());
    assert!(!m.selection_mode_active);

    let ui = UiState::default();
    assert!(ui.banner.is_none());
    assert_eq!(ui.help_list.get_selected_index(), None);
}

#[test]
fn sprint_view_scrolls_selection_into_view() {
    let mut s = SprintViewState::default();
    assert_eq!(s.panel, SprintTaskPanel::Uncompleted);
    s.uncompleted_cards.update_cards((0..20).map(|_| Uuid::new_v4()).collect());
    s.uncompleted_cards.selection.set(Some(12));
    s.completed_cards.update_cards((0..5).map(|_| Uuid::new_v4()).collect());
    s.completed_cards.selection.set(Some(1));
    s.completed_cards.scroll_offset = 3;
    s.sync_scroll(5, 5);
    assert_eq!(s.uncompleted_cards.scroll_offset, 8);
    assert_eq!(s.completed_cards.scroll_offset, 1);
}

#[test]
fn banners_keep_their_message() {
    let e = Banner::error("Something failed");
    assert_eq!(e.message, "Something failed");
    assert_eq!(e.variant, BannerVariant::Error);
    assert!(!e.is_expired(Duration::from_secs(3600)));
    let s = Banner::success("Saved");
    assert_eq!(s.message, "Saved");
    assert_eq!(s.variant, BannerVariant::Success);
    assert!(!s.is_expired(Duration::from_secs(3600)));
}

#[test]
fn selection_mode_and_select_all() {
    let a = Uuid::new_v4();
    let b = Uuid::new_v4();
    let mut m = MultiSelectState::new();
    m.toggle_selection_mode(false, Some(a));
    assert!(!m.selection_mode_active);
    assert!(m.selected_cards.is_empty());
    m.toggle_selection_mode(true, Some(a));
    assert!(m.selection_mode_active);
    assert_eq!(m.selected_cards, vec![a]);
    m.toggle_selection_mode(true, Some(b));
    assert!(!m.selection_mode_active, "leaving selection mode keeps the cards");
    assert_eq!(m.selected_cards, vec![a]);
    m.toggle_selection_mode(true, Some(a));
    assert_eq!(m.selected_cards, vec![a], "a card is chosen once");
    m.select_all_in_view(&vec![b, a, b]);
    assert_eq!(m.selected_cards, vec![a, b]);
    m.clear();
    assert!(m.selected_cards.is_empty());
    let mut empty = MultiSelectState::new();
    empty.select_all_in_view(&vec![]);
    assert!(!empty.selection_mode_active);
}

#[test]
fn sprint_filter_toggles() {
    let active = Uuid::new_v4();
    let other = Uuid::new_v4();
    let mut f = vec![other];
    toggle_sprint_filter(&mut f, active);
    assert_eq!(f, vec![active], "the filter becomes the active sprint alone");
    toggle_sprint_filter(&mut f, active);
    assert!(f.is_empty(), "a second press shows every card again");
    let mut g = vec![other, active];
    toggle_sprint_filter(&mut g, active);
    assert_eq!(g, vec![other]);
}

#[test]
fn finished_animations_are_batched() {
    let ids: Vec<Uuid> = (0..5).map(|_| Uuid::new_v4()).collect();
    let anims = vec![
        RunningAnimation { card_id: ids[0], kind: AnimationType::Archiving, elapsed_ms: 150 },
        RunningAnimation { card_id: ids[1], kind: AnimationType::Deleting, elapsed_ms: 149 },
        RunningAnimation { card_id: ids[2], kind: AnimationType::Restoring, elapsed_ms: 400 },
        RunningAnimation { card_id: ids[3], kind: AnimationType::Archiving, elapsed_ms: 151 },
        RunningAnimation { card_id: ids[4], kind: AnimationType::Deleting, elapsed_ms: 1000 },
    ];
    let b = split_finished(&anims);
    assert_eq!(b.archive, vec![ids[0], ids[3]]);
    assert_eq!(b.restore, vec![ids[2]]);
    assert_eq!(b.delete, vec![ids[4]]);
    assert_eq!(b.running.len(), 1);
    assert_eq!(b.running[0].card_id, ids[1]);
    assert_eq!(b.archive.len() + b.restore.len() + b.delete.len() + b.running.len(), anims.len());
}

#[test]
fn banner_box_is_centred_and_fits_the_row() {
    assert_eq!(Banner::box_geometry(6, 40), (15, 10));
    assert_eq!(Banner::box_geometry(7, 40), (14, 11));
    assert_eq!(Banner::box_geometry(50, 40), (0, 40), "a long message fills the row");
    assert_eq!(Banner::box_geometry(36, 40), (0, 40));
    assert_eq!(Banner::box_geometry(0, 0), (0, 0));
}

#[test]
fn banner_expires_only_after_its_time_to_live() {
    assert!(!expired_after(5, 10));
    assert!(!expired_after(10, 10), "exactly the time to live is not yet expired");
    assert!(expired_after(11, 10));
    let b = Banner::error("x");
    assert!(!b.is_expired(Duration::from_secs(3600)));
    let start = std::time::Instant::now();
    while start.elapsed().as_nanos() == 0 {}
    assert!(b.is_expired(Duration::ZERO), "some time has passed since the banner appeared");
}

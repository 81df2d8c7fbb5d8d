//! Verified core of a terminal kanban board: list navigation and paging,
//! card-list scrolling, dialog state machines, and the text processing
//! behind the configuration editor.

pub mod selection;
pub mod page;
pub mod generic_list;
pub mod ids;
pub mod card_list;
pub mod keys;
pub mod text;
pub mod card_list_component;
pub mod app_state;
pub mod export_dialog;
pub mod settings_nav;
pub mod keybinding;
pub mod page_size;
pub mod edit_format;
pub mod editor;
pub mod banner;
pub mod panel;
pub mod sprint_picker;
pub mod views;
pub mod dialogs;
pub mod filters;
pub mod export;
pub mod board_context;
pub mod key_router;
pub mod column_move;
pub mod board_detail;
pub mod card_detail;
pub mod sprint_detail;
pub mod prefix_dialog;
pub mod popups;
pub mod sync_policy;
pub mod mode_keys;
pub mod points_dialog;
pub mod sprint_lifecycle;
pub mod animation;
pub mod main_view;
pub mod storage_change;
pub mod search_highlight;

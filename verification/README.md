# kanban_tui

The core of a keyboard-driven terminal kanban board, written in Verus: the
state machines behind its lists, dialogs and views, with their behaviour
stated in `requires`/`ensures` contracts and proved.

## Layout

- `src/` — the verified library.
  - Lists and scrolling: `selection`, `page`, `generic_list`, `card_list`,
    `card_list_component`, `page_size`.
  - Key handling: `keys`, `key_router` (the main view and the quit key),
    `main_view` (panel focus, the help screen, new cards),
    `card_detail`, `board_detail`, `sprint_detail`, `settings_nav`,
    `mode_keys`, `keybinding`.
  - Dialogs: `export_dialog`, `sprint_picker`, `filters`, `popups`,
    `prefix_dialog`, `points_dialog`, `dialogs`.
  - Board data: `column_move` (moving cards and columns, deleting columns),
    `export`, `board_context`, `ids`.
  - Files and the editor: `edit_format` (JSONC comments and trailing
    commas), `editor`, `text`.
  - Synchronisation with the data file: `sync_policy`, `storage_change`.
  - Sprints and animations: `sprint_lifecycle`, `animation`.
  - View state: `app_state`, `views`, `panel`, `banner`, and
    `search_highlight` (which runs of a card title match the search).
- `tests/` — tests of the library on concrete values.
- `app/` — the terminal side: crossterm key events, the external editor,
  and reading and writing JSON/TOML with serde.

Each public `proof fn` states a property that holds across calls (for
instance that moving up undoes moving down, or that unsaved changes are
never reloaded over).

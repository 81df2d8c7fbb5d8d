use vstd::prelude::*;
use crate::app_state::SettingsFocus;
use crate::keys::KeyInput;
use crate::selection::{SelectionState, spec_next, spec_prev};

verus! {

/// Cursor state of the settings view: the focused panel, the selected row
/// of each panel, and the two facts that decide how many rows the
/// configuration panel has (a data file is in use; it was given on the
/// command line and overrides the configured location).
#[derive(Debug, Clone, Copy, PartialEq, Eq, Structural)]
pub struct SettingsNavigation {
    pub focus: SettingsFocus,
    pub config: SelectionState,
    pub config_file: SelectionState,
    pub storage: SelectionState,
    pub has_data_file: bool,
    pub cli_file_override: bool,
}

/// Rows of a settings panel.
pub open spec fn item_count(panel: SettingsFocus, has_data_file: bool, cli_file_override: bool) -> usize {
    match panel {
        SettingsFocus::Configuration => if has_data_file {
            if cli_file_override { 9 } else { 7 }
        } else {
            5
        },
        SettingsFocus::ConfigFile => 3,
        SettingsFocus::Storage => 4,
    }
}

pub open spec fn row(sel: SelectionState) -> usize {
    match sel.selected {
        Some(i) => i,
        None => 0,
    }
}

/// The settings state after moving down: past the last row of the
/// configuration panel the cursor moves to the first row of the
/// config-file panel and back; the storage panel wraps round; with an
/// overriding data file row 4 of the configuration panel skips to row 7.
pub open spec fn nav_down(s: SettingsNavigation) -> SettingsNavigation {
    match s.focus {
        SettingsFocus::Configuration => {
            let count = item_count(SettingsFocus::Configuration, s.has_data_file, s.cli_file_override);
            let cur = row(s.config);
            if cur >= count - 1 {
                SettingsNavigation { focus: SettingsFocus::ConfigFile, config_file: SelectionState { selected: Some(0) }, ..s }
            } else if s.cli_file_override && s.has_data_file && cur == 4 {
                SettingsNavigation { config: SelectionState { selected: Some(7) }, ..s }
            } else {
                SettingsNavigation { config: SelectionState { selected: spec_next(s.config.selected, count) }, ..s }
            }
        },
        SettingsFocus::ConfigFile => {
            let count = item_count(SettingsFocus::ConfigFile, s.has_data_file, s.cli_file_override);
            let cur = row(s.config_file);
            if cur >= count - 1 {
                SettingsNavigation { focus: SettingsFocus::Configuration, config: SelectionState { selected: Some(0) }, ..s }
            } else {
                SettingsNavigation { config_file: SelectionState { selected: spec_next(s.config_file.selected, count) }, ..s }
            }
        },
        SettingsFocus::Storage => {
            let count = item_count(SettingsFocus::Storage, s.has_data_file, s.cli_file_override);
            let cur = row(s.storage);
            if cur >= count - 1 {
                SettingsNavigation { storage: SelectionState { selected: Some(0) }, ..s }
            } else {
                SettingsNavigation { storage: SelectionState { selected: spec_next(s.storage.selected, count) }, ..s }
            }
        },
    }
}

/// The settings state after moving up, the mirror of `nav_down`.
pub open spec fn nav_up(s: SettingsNavigation) -> SettingsNavigation {
    match s.focus {
        SettingsFocus::Configuration => {
            let cur = row(s.config);
            if cur == 0 {
                let count = item_count(SettingsFocus::ConfigFile, s.has_data_file, s.cli_file_override);
                SettingsNavigation { focus: SettingsFocus::ConfigFile, config_file: SelectionState { selected: Some((count - 1) as usize) }, ..s }
            } else if s.cli_file_override && s.has_data_file && cur == 7 {
                SettingsNavigation { config: SelectionState { selected: Some(4) }, ..s }
            } else {
                SettingsNavigation { config: SelectionState { selected: spec_prev(s.config.selected) }, ..s }
            }
        },
        SettingsFocus::ConfigFile => {
            let cur = row(s.config_file);
            if cur == 0 {
                let count = item_count(SettingsFocus::Configuration, s.has_data_file, s.cli_file_override);
                SettingsNavigation { focus: SettingsFocus::Configuration, config: SelectionState { selected: Some((count - 1) as usize) }, ..s }
            } else {
                SettingsNavigation { config_file: SelectionState { selected: spec_prev(s.config_file.selected) }, ..s }
            }
        },
        SettingsFocus::Storage => {
            let cur = row(s.storage);
            if cur == 0 {
                let count = item_count(SettingsFocus::Storage, s.has_data_file, s.cli_file_override);
                SettingsNavigation { storage: SelectionState { selected: Some((count - 1) as usize) }, ..s }
            } else {
                SettingsNavigation { storage: SelectionState { selected: spec_prev(s.storage.selected) }, ..s }
            }
        },
    }
}

/// The focused panel's row is selected and lies in the panel, and the other
/// configuration rows are selected too (rows 5 and 6 of an overriding
/// configuration panel are never reached by moving).
pub open spec fn settings_well_placed(s: SettingsNavigation) -> bool {
    let cfg = item_count(SettingsFocus::Configuration, s.has_data_file, s.cli_file_override);
    match s.focus {
        SettingsFocus::Configuration => s.config.selected matches Some(i) && i < cfg
            && !(s.cli_file_override && s.has_data_file && (i == 5 || i == 6)),
        SettingsFocus::ConfigFile => s.config_file.selected matches Some(i) && i < 3,
        SettingsFocus::Storage => s.storage.selected matches Some(i) && i < 4,
    }
}

impl SettingsNavigation {
    /// Rows of `panel`.
    pub fn settings_item_count(&self, panel: SettingsFocus) -> (r: usize)
        ensures
            r == item_count(panel, self.has_data_file, self.cli_file_override),
    {
        match panel {
            SettingsFocus::Configuration => {
                if self.has_data_file {
                    if self.cli_file_override {
                        9
                    } else {
                        7
                    }
                } else {
                    5
                }
            },
            SettingsFocus::ConfigFile => 3,
            SettingsFocus::Storage => 4,
        }
    }

    /// Moves the settings cursor down.
    pub fn handle_settings_nav_down(&mut self)
        ensures
            *final(self) == nav_down(*old(self)),
    {
        match self.focus {
            SettingsFocus::Configuration => {
                let count = self.settings_item_count(SettingsFocus::Configuration);
                let current = match self.config.get() {
                    Some(i) => i,
                    None => 0,
                };
                if current >= count - 1 {
                    self.focus = SettingsFocus::ConfigFile;
                    self.config_file.set(Some(0));
                } else if self.cli_file_override && self.has_data_file && current == 4 {
                    self.config.set(Some(7));
                } else {
                    self.config.next(count);
                }
            },
            SettingsFocus::ConfigFile => {
                let count = self.settings_item_count(SettingsFocus::ConfigFile);
                let current = match self.config_file.get() {
                    Some(i) => i,
                    None => 0,
                };
                if current >= count - 1 {
                    self.focus = SettingsFocus::Configuration;
                    self.config.set(Some(0));
                } else {
                    self.config_file.next(count);
                }
            },
            SettingsFocus::Storage => {
                let count = self.settings_item_count(SettingsFocus::Storage);
                let current = match self.storage.get() {
                    Some(i) => i,
                    None => 0,
                };
                if current >= count - 1 {
                    self.storage.set(Some(0));
                } else {
                    self.storage.next(count);
                }
            },
        }
    }

    /// Moves the settings cursor up.
    pub fn handle_settings_nav_up(&mut self)
        ensures
            *final(self) == nav_up(*old(self)),
    {
        match self.focus {
            SettingsFocus::Configuration => {
                let current = match self.config.get() {
                    Some(i) => i,
                    None => 0,
                };
                if current == 0 {
                    let count = self.settings_item_count(SettingsFocus::ConfigFile);
                    self.focus = SettingsFocus::ConfigFile;
                    self.config_file.set(Some(count - 1));
                } else if self.cli_file_override && self.has_data_file && current == 7 {
                    self.config.set(Some(4));
                } else {
                    self.config.prev();
                }
            },
            SettingsFocus::ConfigFile => {
                let current = match self.config_file.get() {
                    Some(i) => i,
                    None => 0,
                };
                if current == 0 {
                    let count = self.settings_item_count(SettingsFocus::Configuration);
                    self.focus = SettingsFocus::Configuration;
                    self.config.set(Some(count - 1));
                } else {
                    self.config_file.prev();
                }
            },
            SettingsFocus::Storage => {
                let current = match self.storage.get() {
                    Some(i) => i,
                    None => 0,
                };
                if current == 0 {
                    let count = self.settings_item_count(SettingsFocus::Storage);
                    self.storage.set(Some(count - 1));
                } else {
                    self.storage.prev();
                }
            },
        }
    }
}

/// Moving up undoes moving down: from a cursor on a row of its panel, down
/// then up returns the focused panel and its row. (The row left behind in
/// the panel the cursor moved out of keeps its new value.)
pub proof fn lemma_up_undoes_down(s: SettingsNavigation)
    requires
        settings_well_placed(s),
    ensures
        nav_up(nav_down(s)).focus == s.focus,
        match s.focus {
            SettingsFocus::Configuration => nav_up(nav_down(s)).config == s.config,
            SettingsFocus::ConfigFile => nav_up(nav_down(s)).config_file == s.config_file,
            SettingsFocus::Storage => nav_up(nav_down(s)).storage == s.storage,
        },
{
}

/// Moving down undoes moving up, for the same cursors.
pub proof fn lemma_down_undoes_up(s: SettingsNavigation)
    requires
        settings_well_placed(s),
    ensures
        nav_down(nav_up(s)).focus == s.focus,
        match s.focus {
            SettingsFocus::Configuration => nav_down(nav_up(s)).config == s.config,
            SettingsFocus::ConfigFile => nav_down(nav_up(s)).config_file == s.config_file,
            SettingsFocus::Storage => nav_down(nav_up(s)).storage == s.storage,
        },
{
}

/// Moving keeps the focused panel's row selected and inside the panel.
pub proof fn lemma_nav_keeps_cursor_placed(s: SettingsNavigation)
    requires
        settings_well_placed(s),
    ensures
        settings_well_placed(nav_down(s)),
        settings_well_placed(nav_up(s)),
{
}

/// Row of the storage panel that holds the export button.
pub const EXPORT_BUTTON_STORAGE_INDEX: usize = 3;

/// What a key in the settings view asks for.
#[derive(Debug, Clone, Copy, PartialEq, Eq, Structural)]
pub enum SettingsCommand {
    /// Open the configuration in the external editor.
    OpenConfigEditor,
    /// Move the settings cursor (see `handle_settings_key_nav`).
    Navigate,
    /// Open the export dialog.
    Export,
    /// Leave the settings view.
    Close,
    Nothing,
}

/// The command of `key` in the settings view with `focus` on a panel:
/// Enter on the configuration panel and `e` edit the configuration; the
/// digits, `hjkl`, the arrows and Enter elsewhere move the cursor; `x`
/// exports; Esc and `q` leave.
pub open spec fn settings_command(key: KeyInput, focus: SettingsFocus) -> SettingsCommand {
    if key == KeyInput::Enter && focus == SettingsFocus::Configuration {
        SettingsCommand::OpenConfigEditor
    } else if key == KeyInput::Enter || key == KeyInput::Down || key == KeyInput::Up || key
        == KeyInput::Left || key == KeyInput::Right {
        SettingsCommand::Navigate
    } else if key == KeyInput::Esc {
        SettingsCommand::Close
    } else {
        match key {
            KeyInput::Char(c) => if c == '1' || c == '2' || c == '3' || c == 'j' || c == 'k' || c
                == 'h' || c == 'l' {
                SettingsCommand::Navigate
            } else if c == 'e' {
                SettingsCommand::OpenConfigEditor
            } else if c == 'x' {
                SettingsCommand::Export
            } else if c == 'q' {
                SettingsCommand::Close
            } else {
                SettingsCommand::Nothing
            },
            _ => SettingsCommand::Nothing,
        }
    }
}

/// See `settings_command`.
pub fn route_settings_key(key: KeyInput, focus: SettingsFocus) -> (r: SettingsCommand)
    ensures
        r == settings_command(key, focus),
{
    if key == KeyInput::Enter && focus == SettingsFocus::Configuration {
        SettingsCommand::OpenConfigEditor
    } else if key == KeyInput::Enter || key == KeyInput::Down || key == KeyInput::Up || key
        == KeyInput::Left || key == KeyInput::Right {
        SettingsCommand::Navigate
    } else if key == KeyInput::Esc {
        SettingsCommand::Close
    } else {
        match key {
            KeyInput::Char(c) => if c == '1' || c == '2' || c == '3' || c == 'j' || c == 'k' || c
                == 'h' || c == 'l' {
                SettingsCommand::Navigate
            } else if c == 'e' {
                SettingsCommand::OpenConfigEditor
            } else if c == 'x' {
                SettingsCommand::Export
            } else if c == 'q' {
                SettingsCommand::Close
            } else {
                SettingsCommand::Nothing
            },
            _ => SettingsCommand::Nothing,
        }
    }
}

/// Selection of a panel when it gains focus: its first row if none is
/// selected.
pub open spec fn entered(sel: SelectionState) -> SelectionState {
    SelectionState { selected: if sel.selected is None { Some(0usize) } else { sel.selected } }
}

/// The settings state after a navigation key. The digits pick a panel, `h`
/// goes from storage back to the configuration, `l` to storage, `j`/`k`
/// and the arrows move as `nav_down` and `nav_up` do.
pub open spec fn settings_after_key(s: SettingsNavigation, key: KeyInput) -> SettingsNavigation {
    if key == KeyInput::Char('1') {
        SettingsNavigation { focus: SettingsFocus::Configuration, config: entered(s.config), ..s }
    } else if key == KeyInput::Char('2') {
        SettingsNavigation { focus: SettingsFocus::ConfigFile, config_file: entered(s.config_file), ..s }
    } else if key == KeyInput::Char('3') {
        SettingsNavigation { focus: SettingsFocus::Storage, storage: entered(s.storage), ..s }
    } else if key == KeyInput::Char('j') || key == KeyInput::Down {
        nav_down(s)
    } else if key == KeyInput::Char('k') || key == KeyInput::Up {
        nav_up(s)
    } else if key == KeyInput::Char('h') || key == KeyInput::Left {
        if s.focus == SettingsFocus::Storage {
            SettingsNavigation { focus: SettingsFocus::Configuration, config: entered(s.config), ..s }
        } else {
            s
        }
    } else if key == KeyInput::Char('l') || key == KeyInput::Right {
        if s.focus != SettingsFocus::Storage {
            SettingsNavigation { focus: SettingsFocus::Storage, storage: entered(s.storage), ..s }
        } else {
            s
        }
    } else {
        s
    }
}

impl SettingsNavigation {
    /// Handles a navigation key of the settings view; returns whether it
    /// asks for the export dialog (Enter on the export row of the storage
    /// panel).
    pub fn handle_settings_key_nav(&mut self, key: KeyInput) -> (export: bool)
        ensures
            *final(self) == settings_after_key(*old(self), key),
            export == (key == KeyInput::Enter && old(self).focus == SettingsFocus::Storage
                && old(self).storage.selected == Some(EXPORT_BUTTON_STORAGE_INDEX)),
    {
        if key == KeyInput::Char('1') {
            self.focus = SettingsFocus::Configuration;
            self.config.auto_select_first_if_empty(true);
        } else if key == KeyInput::Char('2') {
            self.focus = SettingsFocus::ConfigFile;
            self.config_file.auto_select_first_if_empty(true);
        } else if key == KeyInput::Char('3') {
            self.focus = SettingsFocus::Storage;
            self.storage.auto_select_first_if_empty(true);
        } else if key == KeyInput::Char('j') || key == KeyInput::Down {
            self.handle_settings_nav_down();
        } else if key == KeyInput::Char('k') || key == KeyInput::Up {
            self.handle_settings_nav_up();
        } else if key == KeyInput::Char('h') || key == KeyInput::Left {
            if self.focus == SettingsFocus::Storage {
                self.focus = SettingsFocus::Configuration;
                self.config.auto_select_first_if_empty(true);
            }
        } else if key == KeyInput::Char('l') || key == KeyInput::Right {
            if self.focus != SettingsFocus::Storage {
                self.focus = SettingsFocus::Storage;
                self.storage.auto_select_first_if_empty(true);
            }
        } else if key == KeyInput::Enter {
            return self.focus == SettingsFocus::Storage && self.storage.selected == Some(
                EXPORT_BUTTON_STORAGE_INDEX,
            );
        }
        false
    }
}

} // verus!

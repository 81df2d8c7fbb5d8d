use kanban_tui::app_state::SettingsFocus;
use kanban_tui::selection::SelectionState;
use kanban_tui::keys::KeyInput;
use kanban_tui::settings_nav::{route_settings_key, SettingsCommand, SettingsNavigation};

fn nav(has_data_file: bool, cli_file_override: bool) -> SettingsNavigation {
    SettingsNavigation {
        focus: SettingsFocus::Configuration,
        config: SelectionState { selected: Some(0) },
        config_file: SelectionState { selected: Some(0) },
        storage: SelectionState { selected: Some(0) },
        has_data_file,
        cli_file_override,
    }
}

#[test]
fn item_counts() {
    assert_eq!(nav(false, false).settings_item_count(SettingsFocus::Configuration), 5);
    assert_eq!(nav(true, false).settings_item_count(SettingsFocus::Configuration), 7);
    assert_eq!(nav(true, true).settings_item_count(SettingsFocus::Configuration), 9);
    assert_eq!(nav(true, true).settings_item_count(SettingsFocus::ConfigFile), 3);
    assert_eq!(nav(false, false).settings_item_count(SettingsFocus::Storage), 4);
}

#[test]
fn down_walks_the_configuration_panel_then_the_config_file_panel() {
    let mut s = nav(false, false);
    for i in 1..5 {
        s.handle_settings_nav_down();
        assert_eq!(s.focus, SettingsFocus::Configuration);
        assert_eq!(s.config.selected, Some(i));
    }
    s.handle_settings_nav_down();
    assert_eq!(s.focus, SettingsFocus::ConfigFile);
    assert_eq!(s.config_file.selected, Some(0));
    s.handle_settings_nav_down();
    s.handle_settings_nav_down();
    assert_eq!(s.config_file.selected, Some(2));
    s.handle_settings_nav_down();
    assert_eq!(s.focus, SettingsFocus::Configuration);
    assert_eq!(s.config.selected, Some(0));
}

#[test]
fn overriding_data_file_skips_rows() {
    let mut s = nav(true, true);
    s.config.selected = Some(4);
    s.handle_settings_nav_down();
    assert_eq!(s.config.selected, Some(7));
    s.handle_settings_nav_up();
    assert_eq!(s.config.selected, Some(4));
}

#[test]
fn up_from_the_top_goes_to_the_last_config_file_row() {
    let mut s = nav(true, false);
    s.handle_settings_nav_up();
    assert_eq!(s.focus, SettingsFocus::ConfigFile);
    assert_eq!(s.config_file.selected, Some(2));
    s.handle_settings_nav_up();
    s.handle_settings_nav_up();
    s.handle_settings_nav_up();
    assert_eq!(s.focus, SettingsFocus::Configuration);
    assert_eq!(s.config.selected, Some(6));
}

#[test]
fn storage_panel_wraps_round() {
    let mut s = nav(false, false);
    s.focus = SettingsFocus::Storage;
    s.handle_settings_nav_up();
    assert_eq!(s.storage.selected, Some(3));
    s.handle_settings_nav_down();
    assert_eq!(s.storage.selected, Some(0));
}

#[test]
fn up_undoes_down_on_every_row() {
    for (data, cli) in [(false, false), (true, false), (true, true)] {
        let count = nav(data, cli).settings_item_count(SettingsFocus::Configuration);
        for row in 0..count {
            if data && cli && (row == 5 || row == 6) {
                continue;
            }
            let mut s = nav(data, cli);
            s.config.selected = Some(row);
            let before = s;
            s.handle_settings_nav_down();
            s.handle_settings_nav_up();
            assert_eq!(s.focus, before.focus);
            assert_eq!(s.config, before.config);
        }
    }
}

#[test]
fn down_undoes_up_on_every_panel() {
    for focus in [SettingsFocus::Configuration, SettingsFocus::ConfigFile, SettingsFocus::Storage] {
        let mut s = nav(true, false);
        s.focus = focus;
        let before = s;
        s.handle_settings_nav_up();
        s.handle_settings_nav_down();
        assert_eq!(s.focus, before.focus);
        match focus {
            SettingsFocus::Configuration => assert_eq!(s.config, before.config),
            SettingsFocus::ConfigFile => assert_eq!(s.config_file, before.config_file),
            SettingsFocus::Storage => assert_eq!(s.storage, before.storage),
        }
    }
}

#[test]
fn settings_keys() {
    assert_eq!(route_settings_key(KeyInput::Enter, SettingsFocus::Configuration), SettingsCommand::OpenConfigEditor);
    assert_eq!(route_settings_key(KeyInput::Enter, SettingsFocus::Storage), SettingsCommand::Navigate);
    assert_eq!(route_settings_key(KeyInput::Char('e'), SettingsFocus::Storage), SettingsCommand::OpenConfigEditor);
    assert_eq!(route_settings_key(KeyInput::Char('x'), SettingsFocus::Storage), SettingsCommand::Export);
    assert_eq!(route_settings_key(KeyInput::Char('q'), SettingsFocus::Storage), SettingsCommand::Close);
    assert_eq!(route_settings_key(KeyInput::Esc, SettingsFocus::Storage), SettingsCommand::Close);
    assert_eq!(route_settings_key(KeyInput::Char('2'), SettingsFocus::Storage), SettingsCommand::Navigate);
    assert_eq!(route_settings_key(KeyInput::Char('z'), SettingsFocus::Storage), SettingsCommand::Nothing);
}

#[test]
fn settings_panel_keys() {
    let mut s = nav(false, false);
    s.storage.selected = None;
    assert!(!s.handle_settings_key_nav(KeyInput::Char('l')));
    assert_eq!(s.focus, SettingsFocus::Storage);
    assert_eq!(s.storage.selected, Some(0));
    s.storage.selected = Some(3);
    assert!(s.handle_settings_key_nav(KeyInput::Enter), "Enter on the export row exports");
    assert!(!s.handle_settings_key_nav(KeyInput::Char('l')));
    assert_eq!(s.storage.selected, Some(3));
    s.handle_settings_key_nav(KeyInput::Char('h'));
    assert_eq!(s.focus, SettingsFocus::Configuration);
    s.handle_settings_key_nav(KeyInput::Char('2'));
    assert_eq!(s.focus, SettingsFocus::ConfigFile);
    s.handle_settings_key_nav(KeyInput::Char('j'));
    assert_eq!(s.config_file.selected, Some(1));
}

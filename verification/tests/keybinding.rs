use kanban_tui::keybinding::keycode_matches_binding_key;
use kanban_tui::keys::{should_quit, KeyInput};

#[test]
fn character_bindings() {
    assert!(keycode_matches_binding_key(&KeyInput::Char('j'), "j"));
    assert!(keycode_matches_binding_key(&KeyInput::Char('j'), "j/↓"));
    assert!(keycode_matches_binding_key(&KeyInput::Char('k'), "j/k"));
    assert!(!keycode_matches_binding_key(&KeyInput::Char('x'), "j/k"));
    assert!(keycode_matches_binding_key(&KeyInput::Char('/'), "/"));
    assert!(keycode_matches_binding_key(&KeyInput::Char('a'), " a / b "));
    assert!(!keycode_matches_binding_key(&KeyInput::Char('é'), "é"));
}

#[test]
fn named_key_bindings() {
    assert!(keycode_matches_binding_key(&KeyInput::Down, "j/↓"));
    assert!(keycode_matches_binding_key(&KeyInput::Down, "Down"));
    assert!(keycode_matches_binding_key(&KeyInput::Up, "k/UP"));
    assert!(keycode_matches_binding_key(&KeyInput::Enter, "Enter"));
    assert!(keycode_matches_binding_key(&KeyInput::Esc, "ESC"));
    assert!(keycode_matches_binding_key(&KeyInput::Backspace, "Backspace"));
    assert!(keycode_matches_binding_key(&KeyInput::Left, "h/←"));
    assert!(keycode_matches_binding_key(&KeyInput::Right, "Right"));
    assert!(keycode_matches_binding_key(&KeyInput::Home, "Home"));
    assert!(keycode_matches_binding_key(&KeyInput::End, "END"));
    assert!(!keycode_matches_binding_key(&KeyInput::Enter, "enter"));
    assert!(!keycode_matches_binding_key(&KeyInput::Tab, "Tab"));
    assert!(!keycode_matches_binding_key(&KeyInput::Other, ""));
}

#[test]
fn quit_keys() {
    assert!(should_quit(&KeyInput::Char('q')));
    assert!(should_quit(&KeyInput::Char('Q')));
    assert!(!should_quit(&KeyInput::Char('x')));
    assert!(!should_quit(&KeyInput::Esc));
}

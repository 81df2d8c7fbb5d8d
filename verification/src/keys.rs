use vstd::prelude::*;

verus! {

/// A key press, as the library's state machines read it.
#[derive(Debug, Clone, Copy, PartialEq, Eq, Structural)]
pub enum KeyInput {
    Char(char),
    Enter,
    Esc,
    Backspace,
    Tab,
    BackTab,
    Up,
    Down,
    Left,
    Right,
    Home,
    End,
    /// A function key, by its number.
    F(u8),
    Other,
}

/// `q` and `Q` quit the application.
pub fn should_quit(key: &KeyInput) -> (r: bool)
    ensures
        r == (*key == KeyInput::Char('q') || *key == KeyInput::Char('Q')),
{
    match key {
        KeyInput::Char(c) => *c == 'q' || *c == 'Q',
        _ => false,
    }
}

} // verus!

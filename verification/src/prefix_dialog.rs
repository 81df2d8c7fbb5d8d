use vstd::prelude::*;
use crate::app_state::{AppMode, BoardFocus, DialogMode};
use crate::keys::KeyInput;
use crate::text::{chars_of, string_from_chars, trim, trim_bounds};

verus! {

/// Which prefix a prefix dialog edits: a board's sprint prefix, a sprint's
/// own prefix, or the card prefix a sprint imposes on its cards.
#[derive(Debug, Clone, Copy, PartialEq, Eq, Structural)]
pub enum PrefixContext {
    BoardSprint,
    Sprint,
    SprintCard,
}

/// What confirming a prefix dialog does with the typed text.
#[derive(Debug, Clone, PartialEq, Eq)]
pub enum PrefixOutcome {
    /// The text is blank: the prefix is removed.
    Clear,
    /// The trimmed text becomes the prefix.
    Assign(String),
    /// The text holds characters a prefix cannot: nothing changes.
    Invalid,
}

/// Characters a prefix may hold: ASCII letters and digits, `-` and `_`.
pub open spec fn prefix_char(c: char) -> bool {
    ('a' <= c && c <= 'z') || ('A' <= c && c <= 'Z') || ('0' <= c && c <= '9') || c == '-' || c
        == '_'
}

/// `s` is a prefix: non-empty, of prefix characters only.
pub open spec fn is_valid_prefix(s: Seq<char>) -> bool {
    s.len() > 0 && forall|i: int| 0 <= i < s.len() ==> prefix_char(#[trigger] s[i])
}

fn is_prefix_char(c: char) -> (r: bool)
    ensures
        r == prefix_char(c),
{
    ('a' <= c && c <= 'z') || ('A' <= c && c <= 'Z') || ('0' <= c && c <= '9') || c == '-' || c
        == '_'
}

/// Whether `s` is a valid prefix.
pub fn validate_prefix(s: &str) -> (r: bool)
    ensures
        r == is_valid_prefix(s@),
{
    let chars = chars_of(s);
    if chars.len() == 0 {
        return false;
    }
    let mut i: usize = 0;
    while i < chars.len()
        invariant
            i <= chars@.len(),
            chars@ == s@,
            forall|k: int| 0 <= k < i ==> prefix_char(#[trigger] chars@[k]),
        decreases chars@.len() - i,
    {
        if !is_prefix_char(chars[i]) {
            assert(!prefix_char(s@[i as int]));
            return false;
        }
        i = i + 1;
    }
    true
}

/// The outcome of confirming a prefix dialog holding `input`: blank text
/// removes the prefix, a valid prefix (after trimming) is set, anything
/// else is refused.
pub open spec fn prefix_outcome_of(input: Seq<char>, r: PrefixOutcome) -> bool {
    let t = trim(input);
    if t.len() == 0 {
        r == PrefixOutcome::Clear
    } else if is_valid_prefix(t) {
        r matches PrefixOutcome::Assign(p) && p@ == t
    } else {
        r == PrefixOutcome::Invalid
    }
}

/// Decides what confirming a prefix dialog with text `input` does.
pub fn prefix_outcome(input: &str) -> (r: PrefixOutcome)
    ensures
        prefix_outcome_of(input@, r),
{
    let chars = chars_of(input);
    let (lo, hi) = trim_bounds(&chars, 0, chars.len());
    assert(chars@.subrange(0, chars@.len() as int) =~= input@);
    let t = string_from_chars(&chars, lo, hi);
    if lo == hi {
        return PrefixOutcome::Clear;
    }
    if validate_prefix(t.as_str()) {
        PrefixOutcome::Assign(t)
    } else {
        PrefixOutcome::Invalid
    }
}

/// Whether setting a prefix in `context` also starts the board's sprint
/// counter for it (sprint names are numbered per prefix).
pub fn initializes_counter(context: PrefixContext) -> (r: bool)
    ensures
        r == (context != PrefixContext::SprintCard),
{
    match context {
        PrefixContext::SprintCard => false,
        _ => true,
    }
}

/// The view a prefix dialog returns to, and the board panel it focuses:
/// the board's settings for the board prefix, the sprint view otherwise.
pub fn prefix_dialog_exit(context: PrefixContext) -> (r: (AppMode, Option<BoardFocus>))
    ensures
        r == (match context {
            PrefixContext::BoardSprint => (AppMode::BoardDetail, Some(BoardFocus::Settings)),
            _ => (AppMode::SprintDetail, None),
        }),
{
    match context {
        PrefixContext::BoardSprint => (AppMode::BoardDetail, Some(BoardFocus::Settings)),
        _ => (AppMode::SprintDetail, None),
    }
}

/// The view after a key in the prefix-collision warning: Esc, Enter and `y`
/// accept the colliding prefix and return to the sprint; `n` goes back to
/// the prefix dialog; other keys keep the warning open (`None`).
pub fn prefix_collision_key(key: KeyInput) -> (r: Option<AppMode>)
    ensures
        r == (if key == KeyInput::Esc || key == KeyInput::Enter || key == KeyInput::Char('y') {
            Some(AppMode::SprintDetail)
        } else if key == KeyInput::Char('n') || key == KeyInput::Char('N') {
            Some(AppMode::Dialog(DialogMode::SetSprintPrefix))
        } else {
            None
        }),
{
    if key == KeyInput::Esc || key == KeyInput::Enter || key == KeyInput::Char('y') {
        Some(AppMode::SprintDetail)
    } else if key == KeyInput::Char('n') || key == KeyInput::Char('N') {
        Some(AppMode::Dialog(DialogMode::SetSprintPrefix))
    } else {
        None
    }
}

} // verus!

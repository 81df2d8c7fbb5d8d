use vstd::prelude::*;
use crate::keys::KeyInput;
use crate::text::{chars_of, is_ws, split_on, trim, trim_bounds};

verus! {

/// The names a binding may give a non-character key.
pub open spec fn key_names(key: KeyInput) -> Seq<Seq<char>> {
    match key {
        KeyInput::Enter => seq!["Enter"@, "ENTER"@],
        KeyInput::Esc => seq!["Esc"@, "ESC"@],
        KeyInput::Backspace => seq!["Backspace"@, "BACKSPACE"@],
        KeyInput::Home => seq!["Home"@, "HOME"@],
        KeyInput::End => seq!["End"@, "END"@],
        KeyInput::Down => seq!["↓"@, "Down"@, "DOWN"@],
        KeyInput::Up => seq!["↑"@, "Up"@, "UP"@],
        KeyInput::Left => seq!["←"@, "Left"@, "LEFT"@],
        KeyInput::Right => seq!["→"@, "Right"@, "RIGHT"@],
        _ => Seq::empty(),
    }
}

/// A piece of a binding, once trimmed, names `key`. A character key is
/// named by itself when it is a one-byte (ASCII) character.
pub open spec fn piece_names_key(piece: Seq<char>, key: KeyInput) -> bool {
    match key {
        KeyInput::Char(c) => trim(piece) == seq![c] && (c as u32) < 128,
        _ => key_names(key).contains(trim(piece)),
    }
}

/// Whether a help-screen binding such as `"j/↓"` or `"Enter"` names `key`:
/// one of its `/`-separated pieces names it, or, for a character key, the
/// whole binding is that one character (so `"/"` names the slash key).
pub open spec fn binding_names_key(binding: Seq<char>, key: KeyInput) -> bool {
    let pieces = split_on(binding, '/');
    ||| (key matches KeyInput::Char(c) && binding == seq![c] && (c as u32) < 128)
    ||| exists|i: int| 0 <= i < pieces.len() && piece_names_key(#[trigger] pieces[i], key)
}

/// `s[lo .. hi]` equals `lit`.
fn piece_equals(s: &Vec<char>, lo: usize, hi: usize, lit: &str) -> (r: bool)
    requires
        lo <= hi <= s@.len(),
    ensures
        r == (s@.subrange(lo as int, hi as int) == lit@),
{
    let l = chars_of(lit);
    if hi - lo != l.len() {
        return false;
    }
    let mut i: usize = 0;
    while i < l.len()
        invariant
            i <= l@.len(),
            hi - lo == l@.len(),
            l@ == lit@,
            lo <= hi <= s@.len(),
            forall|k: int| 0 <= k < i ==> s@[lo + k] == l@[k],
        decreases l@.len() - i,
    {
        if s[lo + i] != l[i] {
            assert(s@.subrange(lo as int, hi as int)[i as int] != l@[i as int]);
            return false;
        }
        i = i + 1;
    }
    assert(s@.subrange(lo as int, hi as int) =~= l@);
    true
}

/// Whether the trimmed piece `s[lo .. hi]` names `key`.
fn piece_matches(s: &Vec<char>, lo: usize, hi: usize, key: KeyInput) -> (r: bool)
    requires
        lo <= hi <= s@.len(),
    ensures
        r == piece_names_key(s@.subrange(lo as int, hi as int), key),
{
    let (a, b) = trim_bounds(s, lo, hi);
    let ghost t = s@.subrange(a as int, b as int);
    match key {
        KeyInput::Char(c) => {
            let r = b - a == 1 && s[a] == c && (c as u32) < 128;
            proof {
                assert(t.len() == b - a);
                if b - a == 1 {
                    assert(t =~= seq![s@[a as int]]);
                }
                if r {
                    assert(t =~= seq![c]);
                } else if t == seq![c] {
                    assert(t[0] == c);
                }
            }
            r
        },
        KeyInput::Enter => piece_equals(s, a, b, "Enter") || piece_equals(s, a, b, "ENTER"),
        KeyInput::Esc => piece_equals(s, a, b, "Esc") || piece_equals(s, a, b, "ESC"),
        KeyInput::Backspace => piece_equals(s, a, b, "Backspace") || piece_equals(
            s,
            a,
            b,
            "BACKSPACE",
        ),
        KeyInput::Home => piece_equals(s, a, b, "Home") || piece_equals(s, a, b, "HOME"),
        KeyInput::End => piece_equals(s, a, b, "End") || piece_equals(s, a, b, "END"),
        KeyInput::Down => piece_equals(s, a, b, "↓") || piece_equals(s, a, b, "Down")
            || piece_equals(s, a, b, "DOWN"),
        KeyInput::Up => piece_equals(s, a, b, "↑") || piece_equals(s, a, b, "Up")
            || piece_equals(s, a, b, "UP"),
        KeyInput::Left => piece_equals(s, a, b, "←") || piece_equals(s, a, b, "Left")
            || piece_equals(s, a, b, "LEFT"),
        KeyInput::Right => piece_equals(s, a, b, "→") || piece_equals(s, a, b, "Right")
            || piece_equals(s, a, b, "RIGHT"),
        _ => false,
    }
}

/// The pieces of `s.take(i)` are the pieces ending at separators before `i`
/// followed by `s[start .. i]`.
proof fn lemma_split_step(s: Seq<char>, sep: char, i: int)
    requires
        0 <= i < s.len(),
    ensures
        s.take(i + 1).drop_last() == s.take(i),
        s.take(i + 1).last() == s[i],
{
    assert(s.take(i + 1).drop_last() =~= s.take(i));
}

/// Whether the help-screen binding `binding_key` (such as `"j/↓"`) names
/// the key `key_code`.
pub fn keycode_matches_binding_key(key_code: &KeyInput, binding_key: &str) -> (r: bool)
    ensures
        r == binding_names_key(binding_key@, *key_code),
{
    let key = *key_code;
    let s = chars_of(binding_key);
    let whole = match key {
        KeyInput::Char(c) => s.len() == 1 && s[0] == c && (c as u32) < 128,
        _ => false,
    };
    proof {
        if let KeyInput::Char(c) = key {
            if s@.len() == 1 && s@[0] == c {
                assert(s@ =~= seq![c]);
            }
        }
    }
    if whole {
        return true;
    }
    let mut found = false;
    let mut start: usize = 0;
    let mut i: usize = 0;
    assert(s@.take(0) =~= Seq::<char>::empty());
    while i < s.len()
        invariant
            start <= i <= s@.len(),
            s@ == binding_key@,
            ({
                let p = split_on(s@.take(i as int), '/');
                &&& p.len() > 0
                &&& p.last() == s@.subrange(start as int, i as int)
                &&& found == exists|k: int|
                    0 <= k < p.len() - 1 && piece_names_key(#[trigger] p[k], key)
            }),
        decreases s@.len() - i,
    {
        let ghost p0 = split_on(s@.take(i as int), '/');
        proof {
            lemma_split_step(s@, '/', i as int);
        }
        if s[i] == '/' {
            let m = piece_matches(&s, start, i, key);
            proof {
                let p1 = split_on(s@.take(i + 1), '/');
                assert(p1 == p0.push(Seq::empty()));
                assert forall|k: int| 0 <= k < p1.len() - 1 implies p1[k] == p0[k] by {}
                if m {
                    assert(piece_names_key(p1[p0.len() - 1], key));
                }
                if found || m {
                } else {
                    assert forall|k: int| 0 <= k < p1.len() - 1 implies !piece_names_key(
                        #[trigger] p1[k],
                        key,
                    ) by {
                        if k < p0.len() - 1 {
                            assert(p1[k] == p0[k]);
                        }
                    }
                }
            }
            found = found || m;
            start = i + 1;
            assert(s@.subrange((i + 1) as int, (i + 1) as int) =~= Seq::<char>::empty());
        } else {
            proof {
                let p1 = split_on(s@.take(i + 1), '/');
                assert(p1 == p0.update(p0.len() - 1, p0.last().push(s@[i as int])));
                assert(p1.last() =~= s@.subrange(start as int, i + 1));
                assert forall|k: int| 0 <= k < p1.len() - 1 implies p1[k] == p0[k] by {}
            }
        }
        i = i + 1;
    }
    let m = piece_matches(&s, start, i, key);
    proof {
        assert(s@.take(s@.len() as int) =~= s@);
        let p = split_on(s@, '/');
        if m {
            assert(piece_names_key(p[p.len() - 1], key));
        }
        if found {
            let k = choose|k: int| 0 <= k < p.len() - 1 && piece_names_key(#[trigger] p[k], key);
        }
        if !(found || m) {
            assert forall|k: int| 0 <= k < p.len() implies !piece_names_key(#[trigger] p[k], key) by {
                if k == p.len() - 1 {
                } else {
                }
            }
        }
    }
    found || m
}

} // verus!

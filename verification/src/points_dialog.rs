use vstd::prelude::*;
use crate::text::{chars_of, trim, trim_bounds};

verus! {

/// What confirming the story-points dialog does with the typed text.
#[derive(Debug, Clone, Copy, PartialEq, Eq, Structural)]
pub enum PointsOutcome {
    /// Blank text: the card's points are removed.
    Clear,
    /// The card gets these points (1 to 5).
    Assign(u8),
    /// A number outside 1 to 5: nothing changes.
    OutOfRange,
    /// Not a number: nothing changes.
    Invalid,
}

pub open spec fn is_digit(c: char) -> bool {
    '0' <= c && c <= '9'
}

/// Value of a string of decimal digits.
pub open spec fn digits_value(s: Seq<char>) -> nat
    decreases s.len(),
{
    if s.len() == 0 {
        0
    } else {
        digits_value(s.drop_last()) * 10 + ((s.last() as u32 - '0' as u32) as nat)
    }
}

pub open spec fn all_digits(d: Seq<char>) -> bool {
    forall|i: int| 0 <= i < d.len() ==> is_digit(#[trigger] d[i])
}

/// `str::parse::<u8>`: an optional `+` followed by at least one decimal
/// digit, of value at most 255.
pub open spec fn parse_u8(s: Seq<char>) -> Option<u8> {
    let d = if s.len() > 0 && s[0] == '+' { s.drop_first() } else { s };
    if d.len() > 0 && all_digits(d) && digits_value(d) <= 255 {
        Some(digits_value(d) as u8)
    } else {
        None
    }
}

/// The outcome of confirming the points dialog with text `input`.
pub open spec fn points_outcome_of(input: Seq<char>) -> PointsOutcome {
    let t = trim(input);
    if t.len() == 0 {
        PointsOutcome::Clear
    } else {
        match parse_u8(t) {
            Some(p) => if 1 <= p && p <= 5 { PointsOutcome::Assign(p) } else { PointsOutcome::OutOfRange },
            None => PointsOutcome::Invalid,
        }
    }
}

proof fn lemma_digits_value_step(s: Seq<char>, i: int)
    requires
        0 <= i < s.len(),
    ensures
        digits_value(s.take(i + 1)) == digits_value(s.take(i)) * 10 + ((s[i] as u32 - '0' as u32) as nat),
{
    assert(s.take(i + 1).drop_last() =~= s.take(i));
}

proof fn lemma_digits_value_grows(s: Seq<char>, i: int)
    requires
        0 <= i <= s.len(),
    ensures
        digits_value(s.take(i)) <= digits_value(s),
    decreases s.len() - i,
{
    if i < s.len() {
        lemma_digits_value_grows(s, i + 1);
        lemma_digits_value_step(s, i);
    } else {
        assert(s.take(i) =~= s);
    }
}

/// `str::parse::<u8>` of `s[lo .. hi]`.
fn parse_u8_chars(s: &Vec<char>, lo: usize, hi: usize) -> (r: Option<u8>)
    requires
        lo <= hi <= s@.len(),
    ensures
        r == parse_u8(s@.subrange(lo as int, hi as int)),
{
    let ghost t = s@.subrange(lo as int, hi as int);
    let start = if lo < hi && s[lo] == '+' { lo + 1 } else { lo };
    let ghost d = s@.subrange(start as int, hi as int);
    assert(d =~= (if t.len() > 0 && t[0] == '+' { t.drop_first() } else { t }));
    if start == hi {
        return None;
    }
    let mut v: u32 = 0;
    let mut i = start;
    while i < hi
        invariant
            lo <= start <= i <= hi <= s@.len(),
            d == s@.subrange(start as int, hi as int),
            forall|k: int| 0 <= k < i - start ==> is_digit(#[trigger] d[k]),
            t == s@.subrange(lo as int, hi as int),
            d =~= (if t.len() > 0 && t[0] == '+' { t.drop_first() } else { t }),
            v == digits_value(d.take(i - start)),
            v <= 255,
        decreases hi - i,
    {
        let c = s[i];
        if !('0' <= c && c <= '9') {
            proof {
                let dd = if t.len() > 0 && t[0] == '+' { t.drop_first() } else { t };
                assert(dd == d);
                assert(!is_digit(dd[i - start]));
                assert(!all_digits(dd));
                assert(parse_u8(t) is None);
            }
            return None;
        }
        proof {
            lemma_digits_value_step(d, i - start);
        }
        let digit = (c as u32) - 48;
        v = v * 10 + digit;
        i = i + 1;
        if v > 255 {
            proof {
                lemma_digits_value_grows(d, i - start);
                let dd = if t.len() > 0 && t[0] == '+' { t.drop_first() } else { t };
                assert(dd == d);
                assert(digits_value(dd) > 255);
                assert(parse_u8(t) is None);
            }
            return None;
        }
    }
    assert(d.take(i - start) =~= d);
    Some(v as u8)
}

/// Decides what confirming the points dialog with text `input` does: blank
/// text removes the points, a number from 1 to 5 sets them, anything else
/// changes nothing.
pub fn points_outcome(input: &str) -> (r: PointsOutcome)
    ensures
        r == points_outcome_of(input@),
{
    let chars = chars_of(input);
    let (lo, hi) = trim_bounds(&chars, 0, chars.len());
    assert(chars@.subrange(0, chars@.len() as int) =~= input@);
    if lo == hi {
        return PointsOutcome::Clear;
    }
    match parse_u8_chars(&chars, lo, hi) {
        Some(p) => if 1 <= p && p <= 5 {
            PointsOutcome::Assign(p)
        } else {
            PointsOutcome::OutOfRange
        },
        None => PointsOutcome::Invalid,
    }
}

} // verus!

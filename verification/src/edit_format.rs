use vstd::prelude::*;
use crate::text::{chars_of, string_from_chars, string_push, join, trim_start, trim_end, split_on, is_ws_char, trim_bounds, trim};

verus! {

/// Where the comment stripper is in its input.
#[derive(Debug, Clone, Copy, PartialEq, Eq, Structural)]
pub enum StripState {
    /// Ordinary JSON text.
    Code,
    /// Inside a string literal.
    Str,
    /// Right after a backslash inside a string literal.
    StrEscape,
    /// Inside a `//` comment.
    Line,
    /// Inside a `/* */` comment; whether the last character was `*`.
    Block(bool),
}

/// Output of the comment stripper on `s`, starting in state `st`. Comments
/// are dropped but their newlines are kept; text inside string literals
/// (escapes included) is copied as it is.
pub open spec fn strip_from(st: StripState, s: Seq<char>) -> Seq<char>
    decreases s.len(),
{
    if s.len() == 0 {
        Seq::empty()
    } else {
        let c = s[0];
        let rest = s.drop_first();
        match st {
            StripState::Code => if c == '"' {
                seq![c] + strip_from(StripState::Str, rest)
            } else if c == '/' && rest.len() > 0 && rest[0] == '/' {
                strip_from(StripState::Line, rest.drop_first())
            } else if c == '/' && rest.len() > 0 && rest[0] == '*' {
                strip_from(StripState::Block(false), rest.drop_first())
            } else {
                seq![c] + strip_from(StripState::Code, rest)
            },
            StripState::Str => if c == '\\' {
                seq![c] + strip_from(StripState::StrEscape, rest)
            } else if c == '"' {
                seq![c] + strip_from(StripState::Code, rest)
            } else {
                seq![c] + strip_from(StripState::Str, rest)
            },
            StripState::StrEscape => seq![c] + strip_from(StripState::Str, rest),
            StripState::Line => if c == '\n' {
                seq!['\n'] + strip_from(StripState::Code, rest)
            } else {
                strip_from(StripState::Line, rest)
            },
            StripState::Block(prev_star) => {
                let kept = if c == '\n' { seq!['\n'] } else { Seq::<char>::empty() };
                if prev_star && c == '/' {
                    kept + strip_from(StripState::Code, rest)
                } else {
                    kept + strip_from(StripState::Block(c == '*'), rest)
                }
            },
        }
    }
}

/// JSON with comments turned into plain JSON: `//` line comments and
/// `/* */` block comments are removed, their newlines kept so that line
/// numbers in parse errors stay right, and comment markers inside string
/// literals are left alone.
pub open spec fn stripped(s: Seq<char>) -> Seq<char> {
    strip_from(StripState::Code, s)
}

proof fn lemma_strip_step(st: StripState, s: Seq<char>, i: int)
    requires
        0 <= i < s.len(),
    ensures
        s.subrange(i, s.len() as int).drop_first() == s.subrange(i + 1, s.len() as int),
        s.subrange(i, s.len() as int)[0] == s[i],
        s.subrange(i, s.len() as int).len() == s.len() - i,
{
    assert(s.subrange(i, s.len() as int).drop_first() =~= s.subrange(i + 1, s.len() as int));
}

/// Removes `//` and `/* */` comments from JSON text, keeping their newlines
/// and leaving string literals untouched.
pub fn strip_jsonc_comments(s: &str) -> (r: String)
    ensures
        r@ == stripped(s@),
{
    let chars = chars_of(s);
    let n = chars.len();
    let mut out = String::new();
    let mut st = StripState::Code;
    let mut i: usize = 0;
    assert(chars@.subrange(0, n as int) =~= chars@);
    while i < n
        invariant
            i <= n == chars@.len(),
            chars@ == s@,
            out@ + strip_from(st, chars@.subrange(i as int, n as int)) == stripped(s@),
        decreases n - i,
    {
        let c = chars[i];
        proof {
            lemma_strip_step(st, chars@, i as int);
        }
        let next: Option<char> = if i + 1 < n { Some(chars[i + 1]) } else { None };
        match st {
            StripState::Code => {
                if c == '"' {
                    string_push(&mut out, c);
                    st = StripState::Str;
                    i = i + 1;
                } else if c == '/' && next == Some('/') {
                    proof {
                        lemma_strip_step(st, chars@, i + 1);
                    }
                    st = StripState::Line;
                    i = i + 2;
                } else if c == '/' && next == Some('*') {
                    proof {
                        lemma_strip_step(st, chars@, i + 1);
                    }
                    st = StripState::Block(false);
                    i = i + 2;
                } else {
                    string_push(&mut out, c);
                    i = i + 1;
                }
            },
            StripState::Str => {
                string_push(&mut out, c);
                if c == '\\' {
                    st = StripState::StrEscape;
                } else if c == '"' {
                    st = StripState::Code;
                }
                i = i + 1;
            },
            StripState::StrEscape => {
                string_push(&mut out, c);
                st = StripState::Str;
                i = i + 1;
            },
            StripState::Line => {
                if c == '\n' {
                    string_push(&mut out, '\n');
                    st = StripState::Code;
                }
                i = i + 1;
            },
            StripState::Block(prev_star) => {
                if c == '\n' {
                    string_push(&mut out, '\n');
                }
                if prev_star && c == '/' {
                    st = StripState::Code;
                } else {
                    st = StripState::Block(c == '*');
                }
                i = i + 1;
            },
        }
        proof {
            assert(out@ + strip_from(st, chars@.subrange(i as int, n as int)) =~= stripped(s@));
        }
    }
    proof {
        assert(chars@.subrange(n as int, n as int) =~= Seq::<char>::empty());
        assert(out@ =~= stripped(s@));
    }
    out
}

/// `l` without a final carriage return.
pub open spec fn strip_cr(l: Seq<char>) -> Seq<char> {
    if l.len() > 0 && l.last() == '\r' {
        l.drop_last()
    } else {
        l
    }
}

/// `str::lines`: the lines of `s`, split at `\n` or `\r\n`, with no empty
/// line after a final line ending.
pub open spec fn lines_of(s: Seq<char>) -> Seq<Seq<char>> {
    let p = split_on(s, '\n');
    let done = p.drop_last().map_values(|l: Seq<char>| strip_cr(l));
    if p.last().len() == 0 {
        done
    } else {
        done.push(p.last())
    }
}

proof fn lemma_split_on_nonempty(s: Seq<char>, sep: char)
    ensures
        split_on(s, sep).len() > 0,
    decreases s.len(),
{
    if s.len() > 0 {
        lemma_split_on_nonempty(s.drop_last(), sep);
    }
}

/// Appends `chars[lo .. hi]`.
fn push_range(out: &mut String, chars: &Vec<char>, lo: usize, hi: usize)
    requires
        lo <= hi <= chars@.len(),
    ensures
        final(out)@ == old(out)@ + chars@.subrange(lo as int, hi as int),
{
    let mut i = lo;
    while i < hi
        invariant
            lo <= i <= hi <= chars@.len(),
            out@ == old(out)@ + chars@.subrange(lo as int, i as int),
        decreases hi - i,
    {
        string_push(out, chars[i]);
        i = i + 1;
        assert(out@ =~= old(out)@ + chars@.subrange(lo as int, i as int));
    }
}

/// Each range of `r` lies in `chars` and holds the line of `ls` at its index.
pub open spec fn ranges_hold(chars: Seq<char>, r: Seq<(usize, usize)>, ls: Seq<Seq<char>>) -> bool {
    &&& r.len() == ls.len()
    &&& forall|k: int|
        #![trigger r[k]]
        0 <= k < r.len() ==> r[k].0 <= r[k].1 <= chars.len() && chars.subrange(
            r[k].0 as int,
            r[k].1 as int,
        ) == ls[k]
}

/// Bounds of the lines of `chars` within it.
fn line_ranges(chars: &Vec<char>) -> (r: Vec<(usize, usize)>)
    ensures
        ranges_hold(chars@, r@, lines_of(chars@)),
{
    let n = chars.len();
    let mut r: Vec<(usize, usize)> = Vec::new();
    let mut start: usize = 0;
    let mut i: usize = 0;
    assert(chars@.take(0) =~= Seq::<char>::empty());
    while i < n
        invariant
            start <= i <= n == chars@.len(),
            ({
                let p = split_on(chars@.take(i as int), '\n');
                &&& p.len() > 0
                &&& p.last() == chars@.subrange(start as int, i as int)
                &&& ranges_hold(chars@, r@, p.drop_last().map_values(|l: Seq<char>| strip_cr(l)))
            }),
        decreases n - i,
    {
        let ghost p0 = split_on(chars@.take(i as int), '\n');
        assert(chars@.take(i + 1).drop_last() =~= chars@.take(i as int));
        if chars[i] == '\n' {
            let end = if i > start && chars[i - 1] == '\r' { i - 1 } else { i };
            proof {
                let l = chars@.subrange(start as int, i as int);
                if i > start && chars@[i - 1] == '\r' {
                    assert(chars@.subrange(start as int, end as int) =~= l.drop_last());
                }
            }
            let ghost r0 = r@;
            r.push((start, end));
            start = i + 1;
            proof {
                let p1 = split_on(chars@.take(i + 1), '\n');
                assert(p1 == p0.push(Seq::empty()));
                assert(chars@.subrange(start as int, i + 1) =~= Seq::<char>::empty());
                let d0 = p0.drop_last().map_values(|l: Seq<char>| strip_cr(l));
                let d1 = p1.drop_last().map_values(|l: Seq<char>| strip_cr(l));
                assert(p1.drop_last() =~= p0);
                assert(d1 =~= d0.push(strip_cr(p0.last())));
                assert forall|k: int| #![trigger r@[k]] 0 <= k < r@.len() implies r@[k].0 <= r@[k].1
                    <= chars@.len() && chars@.subrange(r@[k].0 as int, r@[k].1 as int) == d1[k] by {
                    if k < r0.len() {
                        assert(r@[k] == r0[k]);
                    }
                }
            }
        } else {
            proof {
                let p1 = split_on(chars@.take(i + 1), '\n');
                assert(p1 == p0.update(p0.len() - 1, p0.last().push(chars@[i as int])));
                assert(p1.last() =~= chars@.subrange(start as int, i + 1));
                assert(p1.drop_last() =~= p0.drop_last());
            }
        }
        i = i + 1;
    }
    proof {
        assert(chars@.take(n as int) =~= chars@);
    }
    let ghost r0 = r@;
    if start < n {
        r.push((start, n));
    }
    proof {
        let p = split_on(chars@, '\n');
        let ls = lines_of(chars@);
        let d = p.drop_last().map_values(|l: Seq<char>| strip_cr(l));
        if start < n {
            assert(ls == d.push(p.last()));
            assert forall|k: int| #![trigger r@[k]] 0 <= k < r@.len() implies r@[k].0 <= r@[k].1
                <= chars@.len() && chars@.subrange(r@[k].0 as int, r@[k].1 as int) == ls[k] by {
                if k < r0.len() {
                    assert(r@[k] == r0[k]);
                }
            }
        } else {
            assert(p.last().len() == 0);
            assert(ls == d);
        }
    }
    r
}

/// The trimmed line `l` ends in a comma.
pub open spec fn ends_with_comma(l: Seq<char>) -> bool {
    trim_end(l).len() > 0 && trim_end(l).last() == ','
}

/// The first line after line `i` that is not blank, without its leading
/// whitespace; empty when there is none.
pub open spec fn next_significant(ls: Seq<Seq<char>>, i: int) -> Seq<char>
    decreases ls.len() - i,
{
    if i + 1 >= ls.len() {
        Seq::empty()
    } else if trim(ls[i + 1]).len() > 0 {
        trim_start(ls[i + 1])
    } else {
        next_significant(ls, i + 1)
    }
}

/// A line that closes an object or an array.
pub open spec fn closes(l: Seq<char>) -> bool {
    l.len() > 0 && (l[0] == '}' || l[0] == ']')
}

/// Line `i` with a trailing comma removed when the next non-blank line
/// closes an object or array.
pub open spec fn fixed_line(ls: Seq<Seq<char>>, i: int) -> Seq<char> {
    let l = ls[i];
    if ends_with_comma(l) && closes(next_significant(ls, i)) {
        let k = crate::export_dialog::last_index_of(l, ',');
        l.take(k) + l.skip(k + 1)
    } else {
        l
    }
}

/// The lines of `s` with trailing commas before a closing `}` or `]`
/// removed, joined with `\n`.
pub open spec fn without_trailing_commas(s: Seq<char>) -> Seq<char> {
    let ls = lines_of(s);
    join(Seq::new(ls.len(), |i: int| fixed_line(ls, i)), seq!['\n'])
}

proof fn lemma_trim_start_sub_ws(s: Seq<char>, lo: int, hi: int)
    requires
        0 <= lo < hi <= s.len(),
        crate::text::is_ws(s[lo]),
    ensures
        trim_start(s.subrange(lo, hi)) == trim_start(s.subrange(lo + 1, hi)),
{
    assert(s.subrange(lo, hi).drop_first() =~= s.subrange(lo + 1, hi));
}

proof fn lemma_trim_end_sub_ws(s: Seq<char>, lo: int, hi: int)
    requires
        0 <= lo < hi <= s.len(),
        crate::text::is_ws(s[hi - 1]),
    ensures
        trim_end(s.subrange(lo, hi)) == trim_end(s.subrange(lo, hi - 1)),
{
    assert(s.subrange(lo, hi).drop_last() =~= s.subrange(lo, hi - 1));
}

/// `trim_start(s[lo .. hi]) == s[r .. hi]`.
fn trim_start_bound(s: &Vec<char>, lo: usize, hi: usize) -> (r: usize)
    requires
        lo <= hi <= s@.len(),
    ensures
        lo <= r <= hi,
        trim_start(s@.subrange(lo as int, hi as int)) == s@.subrange(r as int, hi as int),
{
    let mut a = lo;
    while a < hi && is_ws_char(s[a])
        invariant
            lo <= a <= hi <= s@.len(),
            trim_start(s@.subrange(lo as int, hi as int)) == trim_start(
                s@.subrange(a as int, hi as int),
            ),
        decreases hi - a,
    {
        proof {
            lemma_trim_start_sub_ws(s@, a as int, hi as int);
        }
        a = a + 1;
    }
    a
}

/// `trim_end(s[lo .. hi]) == s[lo .. r]`.
fn trim_end_bound(s: &Vec<char>, lo: usize, hi: usize) -> (r: usize)
    requires
        lo <= hi <= s@.len(),
    ensures
        lo <= r <= hi,
        trim_end(s@.subrange(lo as int, hi as int)) == s@.subrange(lo as int, r as int),
{
    let mut b = hi;
    while b > lo && is_ws_char(s[b - 1])
        invariant
            lo <= b <= hi <= s@.len(),
            trim_end(s@.subrange(lo as int, hi as int)) == trim_end(s@.subrange(lo as int, b as int)),
        decreases b - lo,
    {
        proof {
            lemma_trim_end_sub_ws(s@, lo as int, b as int);
        }
        b = b - 1;
    }
    b
}

proof fn lemma_trim_end_keeps_nonblank_first(x: Seq<char>)
    requires
        x.len() > 0,
        !crate::text::is_ws(x[0]),
    ensures
        trim_end(x).len() > 0,
    decreases x.len(),
{
    if x.len() > 1 && crate::text::is_ws(x.last()) {
        lemma_trim_end_keeps_nonblank_first(x.drop_last());
    }
}

proof fn lemma_trim_start_result(x: Seq<char>)
    ensures
        trim_start(x).len() > 0 ==> !crate::text::is_ws(trim_start(x)[0]),
        trim_start(x).len() == 0 ==> trim(x).len() == 0,
    decreases x.len(),
{
    if x.len() > 0 && crate::text::is_ws(x[0]) {
        lemma_trim_start_result(x.drop_first());
    }
}

/// Removes a trailing comma from each line whose next non-blank line starts
/// with `}` or `]`, so that JSON whose last fields were commented out still
/// parses.
pub fn fix_trailing_commas(s: &str) -> (r: String)
    ensures
        r@ == without_trailing_commas(s@),
{
    let chars = chars_of(s);
    let ranges = line_ranges(&chars);
    let ghost ls = lines_of(s@);
    let ghost fixed = Seq::new(ls.len(), |i: int| fixed_line(ls, i));
    let mut out = String::new();
    let mut i: usize = 0;
    while i < ranges.len()
        invariant
            i <= ranges@.len() == ls.len() == fixed.len(),
            chars@ == s@,
            ls == lines_of(s@),
            fixed == Seq::new(ls.len(), |i: int| fixed_line(ls, i)),
            ranges_hold(chars@, ranges@, ls),
            out@ == join(fixed.take(i as int), seq!['\n']),
        decreases ranges@.len() - i,
    {
        let (lo, hi) = ranges[i];
        let ghost l = ls[i as int];
        assert(ranges@[i as int] == (lo, hi));
        assert(chars@.subrange(lo as int, hi as int) == l);
        // Does the line end in a comma?
        let te = trim_end_bound(&chars, lo, hi);
        let comma = te > lo && chars[te - 1] == ',';
        proof {
            assert(trim_end(l) == chars@.subrange(lo as int, te as int));
            assert(chars@.subrange(lo as int, te as int) =~= l.take(te - lo));
            if te > lo {
                assert(trim_end(l).last() == chars@[te - 1]);
            }
            assert(comma == ends_with_comma(l));
        }
        // What starts the next non-blank line?
        let mut closing = false;
        if comma {
            let mut j = i + 1;
            let mut done = false;
            while j < ranges.len() && !done
                invariant
                    i < j <= ranges@.len() == ls.len(),
                    ranges_hold(chars@, ranges@, ls),
                    !done ==> next_significant(ls, i as int) == next_significant(ls, j - 1),
                    done ==> closing == closes(next_significant(ls, i as int)),
                    !done ==> !closing,
                decreases ranges@.len() - j + (if done { 0int } else { 1int }),
            {
                let (a0, b0) = ranges[j];
                assert(ranges@[j as int] == (a0, b0));
                let a = trim_start_bound(&chars, a0, b0);
                let ghost lj = ls[j as int];
                proof {
                    assert(chars@.subrange(a0 as int, b0 as int) == lj);
                    lemma_trim_start_result(lj);
                    if a < b0 {
                        assert(trim_start(lj)[0] == chars@[a as int]);
                        lemma_trim_end_keeps_nonblank_first(trim_start(lj));
                    }
                }
                if a < b0 {
                    closing = chars[a] == '}' || chars[a] == ']';
                    done = true;
                } else {
                    j = j + 1;
                }
            }
            proof {
                if !done {
                    assert(next_significant(ls, j - 1) == Seq::<char>::empty());
                }
            }
        }
        assert(closing ==> closes(next_significant(ls, i as int)));
        let ghost f = fixed[i as int];
        let mut line_out = String::new();
        if comma && closing {
            let mut k = te - 1;
            proof {
                assert(f == fixed_line(ls, i as int));
                assert(ends_with_comma(l) && closes(next_significant(ls, i as int)));
                assert(f == l.take((te - 1 - lo) as int) + l.skip((te - lo) as int)) by {
                    let t = chars@.subrange(lo as int, te as int);
                    assert(t.last() == ',');
                    crate::export_dialog::lemma_last_index_of_bounds(l, ',');
                    let li = crate::export_dialog::last_index_of(l, ',');
                    assert(l[(te - 1 - lo) as int] == ',');
                    assert(li >= te - 1 - lo);
                    assert forall|q: int| te - lo <= q < l.len() implies l[q] != ',' by {
                        lemma_trim_end_tail_ws(l, (te - lo) as int);
                    }
                    assert(li == te - 1 - lo);
                }
            }
            push_range(&mut line_out, &chars, lo, te - 1);
            push_range(&mut line_out, &chars, te, hi);
            proof {
                assert(line_out@ =~= f);
            }
        } else {
            push_range(&mut line_out, &chars, lo, hi);
            proof {
                assert(line_out@ =~= f);
            }
        }
        if i > 0 {
            string_push(&mut out, '\n');
        }
        out.append(line_out.as_str());
        proof {
            assert(fixed.take(i + 1).drop_last() =~= fixed.take(i as int));
            if i == 0 {
                assert(out@ =~= fixed.take(1)[0]);
            }
        }
        i = i + 1;
    }
    assert(fixed.take(ls.len() as int) =~= fixed);
    out
}

/// After `trim_end(l)` ends at `e`, the rest of `l` is whitespace.
proof fn lemma_trim_end_tail_ws(l: Seq<char>, e: int)
    requires
        0 <= e <= l.len(),
        trim_end(l) == l.take(e),
    ensures
        forall|q: int| e <= q < l.len() ==> crate::text::is_ws(l[q]),
    decreases l.len(),
{
    if l.len() > 0 && crate::text::is_ws(l.last()) {
        if e < l.len() {
            assert(trim_end(l.drop_last()) == l.drop_last().take(e)) by {
                assert(l.take(e) =~= l.drop_last().take(e));
            }
            lemma_trim_end_tail_ws(l.drop_last(), e);
            assert forall|q: int| e <= q < l.len() implies crate::text::is_ws(l[q]) by {
                if q < l.len() - 1 {
                    assert(l.drop_last()[q] == l[q]);
                }
            }
        }
    } else {
        assert(l.take(e).len() == l.len());
    }
}

/// Format in which configuration and entities are edited.
#[derive(Debug, Clone, Copy, PartialEq, Eq, Structural)]
pub enum EditFormat {
    Json,
    Toml,
}

/// `s` names TOML, in any letter case.
pub open spec fn names_toml(s: Seq<char>) -> bool {
    s.len() == 4 && (s[0] == 't' || s[0] == 'T') && (s[1] == 'o' || s[1] == 'O') && (s[2] == 'm'
        || s[2] == 'M') && (s[3] == 'l' || s[3] == 'L')
}

/// `p` is a prefix of `s`.
pub open spec fn starts_with(s: Seq<char>, p: Seq<char>) -> bool {
    p.len() <= s.len() && s.take(p.len() as int) == p
}

/// A configuration line that sets the storage backend or location.
pub open spec fn is_storage_line(l: Seq<char>) -> bool {
    let t = trim_start(l);
    starts_with(t, "\"storage_backend\""@) || starts_with(t, "\"storage_location\""@)
        || starts_with(t, "storage_backend"@) || starts_with(t, "storage_location"@)
}

/// The line-comment marker of a format.
pub open spec fn comment_prefix(f: EditFormat) -> Seq<char> {
    match f {
        EditFormat::Json => "// "@,
        EditFormat::Toml => "# "@,
    }
}

/// The lines of `content`, storage lines commented out, joined with `\n`.
pub open spec fn storage_commented(f: EditFormat, content: Seq<char>) -> Seq<char> {
    let ls = lines_of(content);
    join(
        Seq::new(
            ls.len(),
            |i: int|
                if is_storage_line(ls[i]) {
                    comment_prefix(f) + ls[i]
                } else {
                    ls[i]
                },
        ),
        seq!['\n'],
    )
}

/// `chars[a .. hi]` starts with `lit`.
fn starts_with_at(chars: &Vec<char>, a: usize, hi: usize, lit: &str) -> (r: bool)
    requires
        a <= hi <= chars@.len(),
    ensures
        r == starts_with(chars@.subrange(a as int, hi as int), lit@),
{
    let l = chars_of(lit);
    if l.len() > hi - a {
        return false;
    }
    let mut i: usize = 0;
    while i < l.len()
        invariant
            i <= l@.len() <= hi - a,
            a <= hi <= chars@.len(),
            l@ == lit@,
            forall|k: int| 0 <= k < i ==> chars@[a + k] == l@[k],
        decreases l@.len() - i,
    {
        if chars[a + i] != l[i] {
            assert(chars@.subrange(a as int, hi as int).take(l@.len() as int)[i as int] != l@[i as int]);
            return false;
        }
        i = i + 1;
    }
    assert(chars@.subrange(a as int, hi as int).take(l@.len() as int) =~= l@);
    true
}

impl EditFormat {
    /// `"toml"` in any letter case names TOML; anything else JSON.
    pub fn parse(s: &str) -> (f: Self)
        ensures
            f == (if names_toml(s@) {
                EditFormat::Toml
            } else {
                EditFormat::Json
            }),
    {
        let c = chars_of(s);
        if c.len() == 4 && (c[0] == 't' || c[0] == 'T') && (c[1] == 'o' || c[1] == 'O') && (c[2]
            == 'm' || c[2] == 'M') && (c[3] == 'l' || c[3] == 'L') {
            EditFormat::Toml
        } else {
            EditFormat::Json
        }
    }

    /// Extension of the file handed to the editor.
    pub fn file_extension(&self) -> (r: &'static str)
        ensures
            r@ == (match self {
                EditFormat::Json => "jsonc"@,
                EditFormat::Toml => "toml"@,
            }),
    {
        match self {
            EditFormat::Json => "jsonc",
            EditFormat::Toml => "toml",
        }
    }

    /// The format's name, as shown to the user.
    pub fn name(&self) -> (r: &'static str)
        ensures
            r@ == (match self {
                EditFormat::Json => "json"@,
                EditFormat::Toml => "toml"@,
            }),
    {
        match self {
            EditFormat::Json => "json",
            EditFormat::Toml => "toml",
        }
    }

    /// The text the deserializer parses: for JSON, comments and then
    /// trailing commas removed; TOML text as it is.
    pub fn prepare_for_parse(&self, s: &str) -> (r: String)
        ensures
            r@ == (match self {
                EditFormat::Json => without_trailing_commas(stripped(s@)),
                EditFormat::Toml => s@,
            }),
    {
        match self {
            EditFormat::Json => {
                let stripped_text = strip_jsonc_comments(s);
                fix_trailing_commas(stripped_text.as_str())
            },
            EditFormat::Toml => String::from_str(s),
        }
    }

    /// Comments out the lines that set the storage backend or location, so
    /// that they are shown in the editor but not applied.
    pub fn comment_storage_fields(&self, content: &str) -> (r: String)
        ensures
            r@ == storage_commented(*self, content@),
    {
        let chars = chars_of(content);
        let ranges = line_ranges(&chars);
        let ghost ls = lines_of(content@);
        let ghost out_lines = Seq::new(
            ls.len(),
            |i: int|
                if is_storage_line(ls[i]) {
                    comment_prefix(*self) + ls[i]
                } else {
                    ls[i]
                },
        );
        let prefix = match self {
            EditFormat::Json => "// ",
            EditFormat::Toml => "# ",
        };
        let mut out = String::new();
        let mut i: usize = 0;
        while i < ranges.len()
            invariant
                i <= ranges@.len() == ls.len() == out_lines.len(),
                chars@ == content@,
                ls == lines_of(content@),
                prefix@ == comment_prefix(*self),
                out_lines == Seq::new(
                    ls.len(),
                    |i: int|
                        if is_storage_line(ls[i]) {
                            comment_prefix(*self) + ls[i]
                        } else {
                            ls[i]
                        },
                ),
                ranges_hold(chars@, ranges@, ls),
                out@ == join(out_lines.take(i as int), seq!['\n']),
            decreases ranges@.len() - i,
        {
            let (lo, hi) = ranges[i];
            assert(ranges@[i as int] == (lo, hi));
            let ghost l = ls[i as int];
            let a = trim_start_bound(&chars, lo, hi);
            let hit = starts_with_at(&chars, a, hi, "\"storage_backend\"") || starts_with_at(
                &chars,
                a,
                hi,
                "\"storage_location\"",
            ) || starts_with_at(&chars, a, hi, "storage_backend") || starts_with_at(
                &chars,
                a,
                hi,
                "storage_location",
            );
            assert(hit == is_storage_line(l));
            let mut line_out = String::new();
            if hit {
                line_out.append(prefix);
            }
            push_range(&mut line_out, &chars, lo, hi);
            assert(line_out@ =~= out_lines[i as int]);
            if i > 0 {
                string_push(&mut out, '\n');
            }
            out.append(line_out.as_str());
            proof {
                assert(out_lines.take(i + 1).drop_last() =~= out_lines.take(i as int));
                if i == 0 {
                    assert(out@ =~= out_lines.take(1)[0]);
                }
            }
            i = i + 1;
        }
        assert(out_lines.take(ls.len() as int) =~= out_lines);
        out
    }
}

/// Occurrences of `c` in `s`.
pub open spec fn count_char(s: Seq<char>, c: char) -> nat
    decreases s.len(),
{
    if s.len() == 0 {
        0
    } else {
        count_char(s.drop_first(), c) + if s[0] == c { 1nat } else { 0nat }
    }
}

proof fn lemma_count_concat(a: Seq<char>, b: Seq<char>, c: char)
    ensures
        count_char(a + b, c) == count_char(a, c) + count_char(b, c),
    decreases a.len(),
{
    if a.len() > 0 {
        assert((a + b).drop_first() =~= a.drop_first() + b);
        lemma_count_concat(a.drop_first(), b, c);
    } else {
        assert(a + b =~= b);
    }
}

proof fn lemma_strip_keeps_newlines(st: StripState, s: Seq<char>)
    ensures
        count_char(strip_from(st, s), '\n') == count_char(s, '\n'),
    decreases s.len(),
{
    if s.len() > 0 {
        let c = s[0];
        let rest = s.drop_first();
        lemma_strip_keeps_newlines(StripState::Code, rest);
        lemma_strip_keeps_newlines(StripState::Str, rest);
        lemma_strip_keeps_newlines(StripState::StrEscape, rest);
        lemma_strip_keeps_newlines(StripState::Line, rest);
        lemma_strip_keeps_newlines(StripState::Block(true), rest);
        lemma_strip_keeps_newlines(StripState::Block(false), rest);
        if rest.len() > 0 {
            lemma_strip_keeps_newlines(StripState::Line, rest.drop_first());
            lemma_strip_keeps_newlines(StripState::Block(false), rest.drop_first());
        }
        let one = seq![c];
        lemma_count_concat(one, strip_from(StripState::Code, rest), '\n');
        lemma_count_concat(one, strip_from(StripState::Str, rest), '\n');
        lemma_count_concat(one, strip_from(StripState::StrEscape, rest), '\n');
        lemma_count_concat(seq!['\n'], strip_from(StripState::Code, rest), '\n');
        lemma_count_concat(Seq::<char>::empty(), strip_from(StripState::Code, rest), '\n');
        lemma_count_concat(seq!['\n'], strip_from(StripState::Block(c == '*'), rest), '\n');
        lemma_count_concat(Seq::<char>::empty(), strip_from(StripState::Block(c == '*'), rest), '\n');
        assert(one.drop_first() =~= Seq::<char>::empty());
        assert(seq!['\n'].drop_first() =~= Seq::<char>::empty());
        if rest.len() > 0 {
            assert(count_char(rest, '\n') == count_char(rest.drop_first(), '\n') + if rest[0]
                == '\n' { 1nat } else { 0nat });
        }
        match st {
            StripState::Block(p) => {
                lemma_strip_keeps_newlines(StripState::Block(c == '*'), rest);
            },
            _ => {},
        }
    }
}

/// Stripping comments keeps every line break, so line numbers in parse
/// errors refer to the text the user edited.
pub proof fn lemma_stripping_keeps_line_count(s: Seq<char>)
    ensures
        count_char(stripped(s), '\n') == count_char(s, '\n'),
{
    lemma_strip_keeps_newlines(StripState::Code, s);
}

proof fn lemma_strip_without_slash(st: StripState, s: Seq<char>)
    requires
        !s.contains('/'),
        st == StripState::Code || st == StripState::Str || st == StripState::StrEscape,
    ensures
        strip_from(st, s) == s,
    decreases s.len(),
{
    if s.len() > 0 {
        let rest = s.drop_first();
        assert(!rest.contains('/')) by {
            if rest.contains('/') {
                let k = choose|k: int| 0 <= k < rest.len() && rest[k] == '/';
                assert(s[k + 1] == '/');
            }
        }
        assert(s[0] != '/');
        lemma_strip_without_slash(StripState::Code, rest);
        lemma_strip_without_slash(StripState::Str, rest);
        lemma_strip_without_slash(StripState::StrEscape, rest);
        assert(seq![s[0]] + rest =~= s);
    }
}

/// JSON without a `/` has no comments, and stripping leaves it unchanged.
pub proof fn lemma_stripping_text_without_comments_is_identity(s: Seq<char>)
    requires
        !s.contains('/'),
    ensures
        stripped(s) == s,
{
    lemma_strip_without_slash(StripState::Code, s);
}

/// Scanning `s` from state `st` meets no comment: no `//` or `/*` outside
/// string literals.
pub open spec fn comment_free_from(st: StripState, s: Seq<char>) -> bool
    decreases s.len(),
{
    if s.len() == 0 {
        true
    } else {
        let c = s[0];
        let rest = s.drop_first();
        match st {
            StripState::Code => if c == '"' {
                comment_free_from(StripState::Str, rest)
            } else if c == '/' && rest.len() > 0 && (rest[0] == '/' || rest[0] == '*') {
                false
            } else {
                comment_free_from(StripState::Code, rest)
            },
            StripState::Str => if c == '\\' {
                comment_free_from(StripState::StrEscape, rest)
            } else if c == '"' {
                comment_free_from(StripState::Code, rest)
            } else {
                comment_free_from(StripState::Str, rest)
            },
            StripState::StrEscape => comment_free_from(StripState::Str, rest),
            _ => false,
        }
    }
}

proof fn lemma_strip_comment_free(st: StripState, s: Seq<char>)
    requires
        comment_free_from(st, s),
    ensures
        strip_from(st, s) == s,
    decreases s.len(),
{
    if s.len() > 0 {
        let c = s[0];
        let rest = s.drop_first();
        match st {
            StripState::Code => if c == '"' {
                lemma_strip_comment_free(StripState::Str, rest);
            } else {
                lemma_strip_comment_free(StripState::Code, rest);
            },
            StripState::Str => if c == '\\' {
                lemma_strip_comment_free(StripState::StrEscape, rest);
            } else if c == '"' {
                lemma_strip_comment_free(StripState::Code, rest);
            } else {
                lemma_strip_comment_free(StripState::Str, rest);
            },
            StripState::StrEscape => {
                lemma_strip_comment_free(StripState::Str, rest);
            },
            _ => {},
        }
        assert(seq![c] + rest =~= s);
    }
}

/// JSON text without comments (no `//` or `/*` outside string literals)
/// comes out of the stripper unchanged.
pub proof fn lemma_comment_free_text_is_unchanged(s: Seq<char>)
    requires
        comment_free_from(StripState::Code, s),
    ensures
        stripped(s) == s,
{
    lemma_strip_comment_free(StripState::Code, s);
}

} // verus!

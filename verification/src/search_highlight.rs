use vstd::prelude::*;
use vstd::utf8::encode_utf8;

verus! {

/// What `str::to_lowercase` makes of a string: the lowercase mapping of
/// each of its characters.
pub uninterp spec fn lowercase(s: Seq<char>) -> Seq<char>;

/// `str::to_lowercase`. The result is the one `lowercase` names; each
/// character maps to one or more characters, so it is never shorter.
#[verifier::external_body]
fn to_lowercase(s: &str) -> (r: String)
    ensures
        r@ == lowercase(s@),
        r@.len() >= s@.len(),
{
    s.to_lowercase()
}

/// A run of a card title, in bytes of the title: shown plainly, or
/// highlighted as a match of the search query.
#[derive(Debug, Clone, Copy, PartialEq, Eq, Structural)]
pub struct TitleSegment {
    pub start: usize,
    pub end: usize,
    pub highlighted: bool,
}

/// `t[pos ..]` starts with `p`.
pub open spec fn matches_at(t: Seq<u8>, p: Seq<u8>, pos: int) -> bool {
    pos + p.len() <= t.len() && t.subrange(pos, pos + p.len()) == p
}

/// The plain run from `start` to the end of a title of `title_len` bytes,
/// if it is not empty.
pub open spec fn tail(start: int, title_len: int) -> Seq<TitleSegment> {
    if start < title_len {
        seq![TitleSegment { start: start as usize, end: title_len as usize, highlighted: false }]
    } else {
        Seq::empty()
    }
}

/// The runs of a title of `title_len` bytes, when its lowercased bytes `t`
/// are searched from `pos` for the lowercased query `p` (the plain run so
/// far starts at `start`). Each leftmost match is highlighted over as many
/// bytes as the query itself has (`query_len`), and the search goes on
/// after the highlight; the text between highlights is plain. The search
/// stops where a highlight ends past `t`.
pub open spec fn scan(t: Seq<u8>, p: Seq<u8>, query_len: int, title_len: int, pos: int, start: int) -> Seq<TitleSegment>
    decreases t.len() - pos,
{
    if p.len() == 0 || pos < 0 || pos + p.len() > t.len() {
        tail(start, title_len)
    } else if matches_at(t, p, pos) {
        let before = if pos > start {
            seq![TitleSegment { start: start as usize, end: pos as usize, highlighted: false }]
        } else {
            Seq::empty()
        };
        let next = pos + query_len;
        let rest = if query_len > 0 && next <= t.len() {
            scan(t, p, query_len, title_len, next, next)
        } else {
            tail(next, title_len)
        };
        before + seq![TitleSegment { start: pos as usize, end: next as usize, highlighted: true }] + rest
    } else {
        scan(t, p, query_len, title_len, pos + 1, start)
    }
}

/// How a card title is shown while searching for `query`: without a query
/// (or with an empty one) the whole title plainly; otherwise the runs that
/// `scan` gives for the lowercased title and query, in bytes of the title.
pub open spec fn title_segments_of(title: Seq<char>, query: Option<Seq<char>>) -> Seq<TitleSegment> {
    let title_len = encode_utf8(title).len();
    let whole = seq![TitleSegment { start: 0, end: title_len as usize, highlighted: false }];
    match query {
        Some(q) => {
            let t = encode_utf8(lowercase(title));
            let query_len = encode_utf8(q).len();
            if query_len == 0 || t.len() + query_len > usize::MAX {
                whole
            } else {
                scan(t, encode_utf8(lowercase(q)), query_len as int, title_len as int, 0, 0)
            }
        },
        None => whole,
    }
}

/// Whether `t[pos ..]` starts with `p`.
fn starts_with_at(t: &[u8], p: &[u8], pos: usize) -> (r: bool)
    requires
        pos <= t@.len(),
    ensures
        r == matches_at(t@, p@, pos as int),
{
    if p.len() > t.len() - pos {
        return false;
    }
    let mut k: usize = 0;
    while k < p.len()
        invariant
            t@.len() <= usize::MAX,
            pos + p@.len() <= t@.len(),
            k <= p@.len(),
            forall|j: int| 0 <= j < k ==> t@[pos + j] == p@[j],
        decreases p@.len() - k,
    {
        if t[pos + k] != p[k] {
            assert(t@.subrange(pos as int, pos + p@.len())[k as int] != p@[k as int]);
            return false;
        }
        k = k + 1;
    }
    assert(t@.subrange(pos as int, pos + p@.len()) =~= p@);
    true
}

/// The runs of a title of `title_len` bytes whose lowercased text is `text`,
/// for the lowercased query `pattern` of a query `query_len` bytes long (see
/// `scan`).
pub fn match_segments(text: &str, pattern: &str, query_len: usize, title_len: usize) -> (r: Vec<TitleSegment>)
    requires
        encode_utf8(text@).len() + query_len <= usize::MAX,
    ensures
        r@ == scan(encode_utf8(text@), encode_utf8(pattern@), query_len as int, title_len as int, 0, 0),
{
    let t = text.as_bytes();
    let p = pattern.as_bytes();
    let ghost tv = t@;
    let ghost pv = p@;
    let ghost whole = scan(tv, pv, query_len as int, title_len as int, 0, 0);
    let mut out: Vec<TitleSegment> = Vec::new();
    let mut pos: usize = 0;
    let mut start: usize = 0;
    loop
        invariant_except_break
            out@ + scan(tv, pv, query_len as int, title_len as int, pos as int, start as int) == whole,
        invariant
            tv == t@,
            pv == p@,
            tv.len() + query_len <= usize::MAX,
            start <= pos <= tv.len(),
            whole == scan(tv, pv, query_len as int, title_len as int, 0, 0),
        ensures
            out@ == whole,
        decreases tv.len() - pos,
    {
        if p.len() == 0 || p.len() > t.len() - pos {
            if start < title_len {
                out.push(TitleSegment { start, end: title_len, highlighted: false });
            }
            assert(out@ =~= whole);
            break;
        }
        if starts_with_at(t, p, pos) {
            let next = pos + query_len;
            let ghost rest = if query_len > 0 && next <= tv.len() {
                scan(tv, pv, query_len as int, title_len as int, next as int, next as int)
            } else {
                tail(next as int, title_len as int)
            };
            let ghost before = if pos > start {
                seq![TitleSegment { start: start, end: pos, highlighted: false }]
            } else {
                Seq::<TitleSegment>::empty()
            };
            let ghost hl = seq![TitleSegment { start: pos, end: next, highlighted: true }];
            let ghost old_out = out@;
            assert(scan(tv, pv, query_len as int, title_len as int, pos as int, start as int) == before + hl + rest);
            if pos > start {
                out.push(TitleSegment { start, end: pos, highlighted: false });
            }
            out.push(TitleSegment { start: pos, end: next, highlighted: true });
            assert(out@ =~= old_out + before + hl);
            assert(out@ + rest =~= old_out + (before + hl + rest));
            if query_len > 0 && next <= t.len() {
                pos = next;
                start = next;
            } else {
                if next < title_len {
                    out.push(TitleSegment { start: next, end: title_len, highlighted: false });
                }
                assert(out@ =~= whole);
                break;
            }
        } else {
            pos = pos + 1;
        }
    }
    out
}

/// The runs in which a card title is shown while searching for `query`
/// (see `title_segments_of`).
pub fn title_segments(title: &str, query: Option<&str>) -> (r: Vec<TitleSegment>)
    ensures
        r@ == title_segments_of(title@, match query { Some(q) => Some(q@), None => None }),
{
    let title_len = title.as_bytes().len();
    let whole = TitleSegment { start: 0, end: title_len, highlighted: false };
    match query {
        Some(q) => {
            let query_len = q.as_bytes().len();
            if query_len == 0 {
                return vec![whole];
            }
            let t = to_lowercase(title);
            let p = to_lowercase(q);
            let text_len = t.as_str().as_bytes().len();
            if text_len > usize::MAX - query_len {
                return vec![whole];
            }
            match_segments(t.as_str(), p.as_str(), query_len, title_len)
        },
        None => vec![whole],
    }
}

/// The runs `s` cover `from .. to` in order, without gaps or empty runs.
pub open spec fn tiles(s: Seq<TitleSegment>, from: int, to: int) -> bool {
    &&& s.len() == 0 ==> from == to
    &&& s.len() > 0 ==> s[0].start == from && s.last().end == to
    &&& forall|i: int| #![trigger s[i]] 0 <= i < s.len() - 1 ==> s[i].end == s[i + 1].start
    &&& forall|i: int| #![trigger s[i]] 0 <= i < s.len() ==> s[i].start < s[i].end
}

/// Every highlighted run of `s` is a match of `p` in `t`.
pub open spec fn highlights_match(s: Seq<TitleSegment>, t: Seq<u8>, p: Seq<u8>) -> bool {
    forall|i: int| #![trigger s[i]] 0 <= i < s.len() && s[i].highlighted
        ==> matches_at(t, p, s[i].start as int) && s[i].end == s[i].start + p.len()
}

/// Where lowercasing keeps the length of the title and of the query (as it
/// does for ASCII), the highlighted title is the whole title, cut into runs:
/// the runs follow each other from the first byte to the last, none is
/// empty, and each highlighted run is a match of the query.
pub proof fn lemma_segments_cover_the_title(t: Seq<u8>, p: Seq<u8>)
    requires
        t.len() <= usize::MAX,
        p.len() > 0,
    ensures
        tiles(scan(t, p, p.len() as int, t.len() as int, 0, 0), 0, t.len() as int),
        highlights_match(scan(t, p, p.len() as int, t.len() as int, 0, 0), t, p),
{
    lemma_scan_tiles(t, p, 0, 0);
}

proof fn lemma_scan_tiles(t: Seq<u8>, p: Seq<u8>, pos: int, start: int)
    requires
        t.len() <= usize::MAX,
        p.len() > 0,
        0 <= start <= pos <= t.len(),
    ensures
        tiles(scan(t, p, p.len() as int, t.len() as int, pos, start), start, t.len() as int),
        highlights_match(scan(t, p, p.len() as int, t.len() as int, pos, start), t, p),
    decreases t.len() - pos,
{
    let q = p.len() as int;
    let n = t.len() as int;
    if pos + p.len() > t.len() {
    } else if matches_at(t, p, pos) {
        let next = pos + q;
        lemma_scan_tiles(t, p, next, next);
        let rest = scan(t, p, q, n, next, next);
        let before = if pos > start {
            seq![TitleSegment { start: start as usize, end: pos as usize, highlighted: false }]
        } else {
            Seq::<TitleSegment>::empty()
        };
        let hl = seq![TitleSegment { start: pos as usize, end: next as usize, highlighted: true }];
        let bh = before + hl;
        let s = bh + rest;
        assert(s == scan(t, p, q, n, pos, start));
        assert(bh.last() == hl[0]);
        assert forall|i: int| #![trigger s[i]] 0 <= i < s.len() - 1 implies s[i].end == s[i + 1].start by {
            if i + 1 < bh.len() {
                assert(s[i] == bh[i] && s[i + 1] == bh[i + 1]);
            } else if i + 1 == bh.len() {
                assert(s[i] == bh[i]);
                assert(s[i + 1] == rest[0]);
            } else {
                assert(s[i] == rest[i - bh.len()] && s[i + 1] == rest[i + 1 - bh.len()]);
            }
        }
        assert forall|i: int| #![trigger s[i]] 0 <= i < s.len() implies s[i].start < s[i].end by {
            if i < bh.len() {
                assert(s[i] == bh[i]);
            } else {
                assert(s[i] == rest[i - bh.len()]);
            }
        }
        assert forall|i: int| #![trigger s[i]] 0 <= i < s.len() && s[i].highlighted
            implies matches_at(t, p, s[i].start as int) && s[i].end == s[i].start + p.len() by {
            if i < bh.len() {
                assert(s[i] == bh[i]);
            } else {
                assert(s[i] == rest[i - bh.len()]);
            }
        }
        if rest.len() > 0 {
            assert(s.last() == rest.last());
        }
    } else {
        lemma_scan_tiles(t, p, pos + 1, start);
    }
}

} // verus!

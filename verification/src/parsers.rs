//! The executable extractor.
//!
//! `parse_artist` receives a directory-name label, matches the label grammar
//! of `crate::pattern` at the leftmost position where it fits, and returns
//! the four extracted fields — artist, album name, year, media — in that
//! fixed order, each `None` when the label carries no match. Its contract
//! pins the whole result to the specification's `field_views`.

use crate::classes::{class_spec, class_test, digit_test, is_space_char, is_title_open_char,
    space_test, title_open_test, word_class, word_test, CharClass};
use crate::pattern::{extraction, field_views, find_match, lemma_run_end, lemma_tail_match,
    lemma_trim_as_subrange, match_at, name_end, run_end, tail_match, Captures, Tail};
use vstd::prelude::*;

verus! {

/// Index just past the run of characters of class `k` that starts at
/// `start`.
pub fn class_run(v: &Vec<char>, start: usize, k: CharClass) -> (r: usize)
    requires
        start <= v@.len(),
    ensures
        start <= r <= v@.len(),
        r as int == run_end(v@, start as int, class_spec(k)),
{
    let mut r = start;
    loop
        invariant
            start <= r <= v@.len(),
            run_end(v@, start as int, class_spec(k)) == run_end(v@, r as int, class_spec(k)),
        ensures
            start <= r <= v@.len(),
            r as int == run_end(v@, start as int, class_spec(k)),
        decreases v@.len() - r,
    {
        if r == v.len() {
            break;
        }
        if !class_test(k, v[r]) {
            break;
        }
        r = r + 1;
    }
    r
}

/// Tries the fixed tail of the pattern at position `j`, returning the
/// indices of the year's `(` and the media tag's `[` and the tag's length
/// exactly when the specification's `tail_match` succeeds there.
pub fn tail_check(v: &Vec<char>, j: usize) -> (r: Option<(usize, usize, usize)>)
    requires
        j <= v@.len(),
    ensures
        r is Some <==> tail_match(v@, j as int) is Some,
        r matches Some(t) ==> tail_match(v@, j as int) == Some(
            Tail { open_paren: t.0 as int, bracket: t.1 as int, media_len: t.2 as int },
        ),
{
    let n = v.len();
    if j >= n {
        return None;
    }
    let q: usize;
    if v[j] == '(' {
        q = j;
    } else if space_test(v[j]) && j + 1 < n && v[j + 1] == '(' {
        q = j + 1;
    } else {
        return None;
    }
    if n - q <= 5 {
        return None;
    }
    if !(digit_test(v[q + 1]) && digit_test(v[q + 2]) && digit_test(v[q + 3])
        && digit_test(v[q + 4]) && v[q + 5] == ')') {
        return None;
    }
    let b = class_run(v, q + 6, CharClass::Space);
    if b >= n || v[b] != '[' {
        return None;
    }
    if n - b >= 4 && v[b + 1] == 'D' && v[b + 2] == 'D' && v[b + 3] == ']' {
        return Some((q, b, 2));
    }
    if n - b >= 6 && v[b + 1] == 'F' && v[b + 2] == 'L' && v[b + 3] == 'A' && v[b + 4] == 'C'
        && v[b + 5] == ']' {
        return Some((q, b, 4));
    }
    None
}

/// The greedy search for the album title's end: the largest position in
/// `(lo, hi]` at which the tail of the pattern matches, returned together
/// with the tail's indices.
pub fn find_name_end(v: &Vec<char>, lo: usize, hi: usize) -> (r: Option<(usize, usize, usize, usize)>)
    requires
        lo <= hi <= v@.len(),
    ensures
        r is Some <==> name_end(v@, lo as int, hi as int) is Some,
        r matches Some(t) ==> {
            &&& name_end(v@, lo as int, hi as int) == Some(t.0 as int)
            &&& lo < t.0 <= hi
            &&& tail_match(v@, t.0 as int) == Some(
                Tail { open_paren: t.1 as int, bracket: t.2 as int, media_len: t.3 as int },
            )
        },
{
    let mut j = hi;
    loop
        invariant
            lo <= j <= hi <= v@.len(),
            name_end(v@, lo as int, hi as int) == name_end(v@, lo as int, j as int),
        ensures
            lo <= j <= hi,
            name_end(v@, lo as int, hi as int) is None,
        decreases j,
    {
        if j <= lo {
            break;
        }
        match tail_check(v, j) {
            Some(t) => {
                return Some((j, t.0, t.1, t.2));
            },
            None => {
                j = j - 1;
            },
        }
    }
    None
}

/// Where the four groups of one match sit in the label: the artist spans
/// `[artist_lo, artist_end)` (the match's anchor position is `artist_lo`),
/// the trimmed album title spans `[name_lo, name_hi)`, the year
/// `[year_lo, year_lo + 4)`, and the media tag `[media_lo, media_hi)`.
pub struct MatchSpans {
    pub artist_lo: usize,
    pub artist_end: usize,
    pub name_lo: usize,
    pub name_hi: usize,
    pub year_lo: usize,
    pub media_lo: usize,
    pub media_hi: usize,
}

/// Whether `m` lists exactly the group positions of the match that the
/// pattern yields at position `m.artist_lo` of `s`.
pub open spec fn spans_match_at(s: Seq<char>, m: MatchSpans) -> bool {
    &&& m.artist_lo < m.artist_end <= m.name_lo < m.name_hi
    &&& m.name_hi as int <= s.len()
    &&& m.year_lo + 4 <= s.len()
    &&& m.media_lo <= m.media_hi
    &&& m.media_hi as int <= s.len()
    &&& match_at(s, m.artist_lo as int) == Some(
        Captures {
            artist: s.subrange(m.artist_lo as int, m.artist_end as int),
            name: s.subrange(m.name_lo as int, m.name_hi as int),
            year: s.subrange(m.year_lo as int, m.year_lo + 4),
            media: s.subrange(m.media_lo as int, m.media_hi as int),
        },
    )
}

/// Tries the whole pattern anchored at position `p`, returning the group
/// spans exactly when the specification's `match_at` succeeds there.
pub fn match_at_point(v: &Vec<char>, p: usize) -> (r: Option<MatchSpans>)
    requires
        p < v@.len(),
    ensures
        r is Some <==> match_at(v@, p as int) is Some,
        r matches Some(m) ==> m.artist_lo == p && spans_match_at(v@, m),
{
    let n = v.len();
    if !word_test(v[p]) {
        return None;
    }
    let a = class_run(v, p, CharClass::Word);
    let h = class_run(v, a, CharClass::Space);
    if h >= n || v[h] != '-' {
        return None;
    }
    let lo = class_run(v, h + 1, CharClass::Space);
    if lo >= n || !title_open_test(v[lo]) {
        return None;
    }
    let open_end = class_run(v, lo, CharClass::TitleOpen);
    let hi = class_run(v, open_end, CharClass::TitleCont);
    match find_name_end(v, lo, hi) {
        None => None,
        Some((j, q, b, mlen)) => {
            proof {
                lemma_tail_match(v@, j as int);
                assert(run_end(v@, p as int, word_class()) == run_end(v@, p + 1, word_class()));
                lemma_run_end(v@, p + 1, word_class());
            }
            let mut jt = j;
            loop
                invariant
                    lo < jt <= j <= v@.len(),
                    is_title_open_char(v@[lo as int]),
                    forall|k: int| jt <= k < j ==> is_space_char(#[trigger] v@[k]),
                ensures
                    lo < jt <= j,
                    forall|k: int| jt <= k < j ==> is_space_char(#[trigger] v@[k]),
                    !is_space_char(v@[jt - 1]),
                decreases jt,
            {
                if jt == lo + 1 {
                    break;
                }
                if !space_test(v[jt - 1]) {
                    break;
                }
                jt = jt - 1;
            }
            proof {
                lemma_trim_as_subrange(v@, lo as int, jt as int, j as int);
            }
            Some(
                MatchSpans {
                    artist_lo: p,
                    artist_end: a,
                    name_lo: lo,
                    name_hi: jt,
                    year_lo: q + 1,
                    media_lo: b + 1,
                    media_hi: b + 1 + mlen,
                },
            )
        },
    }
}

/// The leftmost match of the pattern in the label, as group spans: the
/// search tries every anchor position from the left and keeps the first that
/// succeeds, so the result describes exactly the specification's
/// `extraction`.
pub fn find_leftmost_match(v: &Vec<char>) -> (r: Option<MatchSpans>)
    ensures
        r is Some <==> extraction(v@) is Some,
        r matches Some(m) ==> {
            &&& spans_match_at(v@, m)
            &&& extraction(v@) == match_at(v@, m.artist_lo as int)
            &&& forall|q: int| 0 <= q < m.artist_lo ==> #[trigger] match_at(v@, q) is None
        },
{
    let n = v.len();
    let mut p: usize = 0;
    while p < n
        invariant
            p <= n,
            n == v@.len(),
            find_match(v@, 0) == find_match(v@, p as int),
            forall|q: int| 0 <= q < p ==> #[trigger] match_at(v@, q) is None,
        decreases n - p,
    {
        match match_at_point(v, p) {
            Some(m) => {
                return Some(m);
            },
            None => {
                p = p + 1;
            },
        }
    }
    None
}

/// The position of the artist field in the extractor's result.
pub const ARTIST: usize = 0;

/// The position of the album-name field in the extractor's result.
pub const ALBUM_NAME: usize = 1;

/// The position of the year field in the extractor's result.
pub const YEAR: usize = 2;

/// The position of the media field in the extractor's result.
pub const MEDIA: usize = 3;

/// Receives a slice representing an album directory name, matches the label
/// grammar against it, and returns the four extracted fields — artist, album
/// name, year, media — in that fixed order. Each field is trimmed of
/// surrounding whitespace and is `None` when the label carries no match;
/// no input is rejected.
pub fn parse_artist(input: &str) -> (r: Vec<Option<String>>)
    ensures
        r@.len() == 4,
        r.deep_view() == field_views(input@),
{
    let n = input.unicode_len();
    let mut v: Vec<char> = Vec::new();
    let mut i: usize = 0;
    while i < n
        invariant
            i <= n,
            n == input@.len(),
            v@ == input@.subrange(0, i as int),
        decreases n - i,
    {
        let c = input.get_char(i);
        v.push(c);
        i = i + 1;
        proof {
            assert(v@ =~= input@.subrange(0, i as int));
        }
    }
    proof {
        assert(v@ =~= input@);
    }
    let mut r: Vec<Option<String>> = Vec::new();
    match find_leftmost_match(&v) {
        None => {
            r.push(None);
            r.push(None);
            r.push(None);
            r.push(None);
            proof {
                assert(r.deep_view() =~= field_views(input@));
            }
        },
        Some(m) => {
            let artist = input.substring_char(m.artist_lo, m.artist_end).to_owned();
            let name = input.substring_char(m.name_lo, m.name_hi).to_owned();
            let year = input.substring_char(m.year_lo, m.year_lo + 4).to_owned();
            let media = input.substring_char(m.media_lo, m.media_hi).to_owned();
            r.push(Some(artist));
            r.push(Some(name));
            r.push(Some(year));
            r.push(Some(media));
            proof {
                assert(r.deep_view() =~= field_views(input@));
            }
        },
    }
    r
}

} // verus!

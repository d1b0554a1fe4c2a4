//! The label grammar.
//!
//! A label conventionally reads `Artist - Album Title (Year) [Media]`. The
//! grammar is a single pattern of five mandatory groups, matched greedily and
//! at the leftmost position where it fits:
//!
//! 1. artist: one or more word characters;
//! 2. separator: one hyphen, optionally padded by whitespace;
//! 3. album title: a title-opening character followed greedily by
//!    title-continuation characters (so embedded hyphens, ampersands and
//!    parenthetical qualifiers stay inside the title);
//! 4. year: exactly four decimal digits in parentheses, at most one
//!    whitespace character after the title;
//! 5. media: `DD` or `FLAC` in brackets, only whitespace between it and the
//!    year group.
//!
//! The functions here define that match over a `Seq<char>`; nothing in this
//! module executes. `match_at` says what the pattern yields at one starting
//! position, `extraction` picks the leftmost position that succeeds, and
//! `field_views` lists the four resulting fields in their fixed order.

use crate::classes::{is_digit_char, is_space_char, is_title_open_char, is_word_char, space_class,
    title_cont_class, title_open_class, word_class};
use vstd::prelude::*;

verus! {

/// Index just past the run of characters of class `cls` that starts at `i`:
/// the first position at or after `i` that is out of bounds or whose
/// character falls outside the class.
pub open spec fn run_end(s: Seq<char>, i: int, cls: spec_fn(char) -> bool) -> int
    decreases s.len() - i,
{
    if 0 <= i && i < s.len() && cls(s[i]) {
        run_end(s, i + 1, cls)
    } else {
        i
    }
}

/// What `run_end` returns: a position within bounds, with the class holding
/// on everything before it and failing on its own character.
pub proof fn lemma_run_end(s: Seq<char>, i: int, cls: spec_fn(char) -> bool)
    requires
        0 <= i <= s.len(),
    ensures
        i <= run_end(s, i, cls) <= s.len(),
        forall|k: int| i <= k < run_end(s, i, cls) ==> cls(#[trigger] s[k]),
        run_end(s, i, cls) < s.len() ==> !cls(s[run_end(s, i, cls)]),
    decreases s.len() - i,
{
    if i < s.len() && cls(s[i]) {
        lemma_run_end(s, i + 1, cls);
    }
}

/// The positions of the year and media groups of one match: `open_paren`
/// holds the index of the `(` before the four digits, `bracket` the index of
/// the `[` before the media tag, and `media_len` the length of the tag.
pub ghost struct Tail {
    pub open_paren: int,
    pub bracket: int,
    pub media_len: int,
}

/// The fixed tail of the pattern, tried at position `j` (just past the album
/// title): at most one whitespace character, `(`, four decimal digits, `)`,
/// any run of whitespace, `[`, the media tag `DD` or `FLAC`, `]`.
pub open spec fn tail_match(s: Seq<char>, j: int) -> Option<Tail> {
    let q = if 0 <= j && j < s.len() && s[j] == '(' {
        j
    } else if 0 <= j && j + 1 < s.len() && is_space_char(s[j]) && s[j + 1] == '(' {
        j + 1
    } else {
        -1
    };
    if q == -1 {
        None
    } else if !(q + 5 < s.len() && is_digit_char(s[q + 1]) && is_digit_char(s[q + 2])
        && is_digit_char(s[q + 3]) && is_digit_char(s[q + 4]) && s[q + 5] == ')') {
        None
    } else {
        let b = run_end(s, q + 6, space_class());
        if !(b < s.len() && s[b] == '[') {
            None
        } else if b + 3 < s.len() && s[b + 1] == 'D' && s[b + 2] == 'D' && s[b + 3] == ']' {
            Some(Tail { open_paren: q, bracket: b, media_len: 2 })
        } else if b + 5 < s.len() && s[b + 1] == 'F' && s[b + 2] == 'L' && s[b + 3] == 'A'
            && s[b + 4] == 'C' && s[b + 5] == ']' {
            Some(Tail { open_paren: q, bracket: b, media_len: 4 })
        } else {
            None
        }
    }
}

/// What a successful `tail_match` says of the label: where the year and
/// media groups sit and which characters they hold.
pub proof fn lemma_tail_match(s: Seq<char>, j: int)
    ensures
        tail_match(s, j) matches Some(t) ==> {
            &&& 0 <= j <= t.open_paren <= j + 1
            &&& t.open_paren + 5 < s.len()
            &&& s[t.open_paren] == '('
            &&& is_digit_char(s[t.open_paren + 1])
            &&& is_digit_char(s[t.open_paren + 2])
            &&& is_digit_char(s[t.open_paren + 3])
            &&& is_digit_char(s[t.open_paren + 4])
            &&& s[t.open_paren + 5] == ')'
            &&& t.open_paren + 6 <= t.bracket < s.len()
            &&& s[t.bracket] == '['
            &&& (t.media_len == 2 || t.media_len == 4)
            &&& t.bracket + 1 + t.media_len < s.len()
            &&& s[t.bracket + 1 + t.media_len] == ']'
            &&& (t.media_len == 2 ==> s[t.bracket + 1] == 'D' && s[t.bracket + 2] == 'D')
            &&& (t.media_len == 4 ==> s[t.bracket + 1] == 'F' && s[t.bracket + 2] == 'L'
                && s[t.bracket + 3] == 'A' && s[t.bracket + 4] == 'C')
        },
{
    if tail_match(s, j) is Some {
        let q = tail_match(s, j).unwrap().open_paren;
        lemma_run_end(s, q + 6, space_class());
    }
}

/// The greedy choice of the album title's end: the largest position in
/// `(lo, hi]` at which the tail of the pattern matches, since the title run
/// itself is maximal and yields its rear characters only as far as the year
/// and media groups demand.
pub open spec fn name_end(s: Seq<char>, lo: int, hi: int) -> Option<int>
    decreases hi - lo,
{
    if hi <= lo {
        None
    } else if tail_match(s, hi) is Some {
        Some(hi)
    } else {
        name_end(s, lo, hi - 1)
    }
}

/// What `name_end` returns: the greatest position in `(lo, hi]` where the
/// tail matches, or `None` when the tail matches nowhere in that range.
pub proof fn lemma_name_end(s: Seq<char>, lo: int, hi: int)
    requires
        lo <= hi,
    ensures
        name_end(s, lo, hi) matches Some(j) ==> lo < j <= hi && tail_match(s, j) is Some
            && forall|j2: int| j < j2 <= hi ==> #[trigger] tail_match(s, j2) is None,
        name_end(s, lo, hi) is None ==> forall|j2: int|
            lo < j2 <= hi ==> #[trigger] tail_match(s, j2) is None,
    decreases hi - lo,
{
    if hi > lo && tail_match(s, hi) is None {
        lemma_name_end(s, lo, hi - 1);
    }
}

/// A sequence of characters with its trailing whitespace removed.
pub open spec fn trim_trailing_space(t: Seq<char>) -> Seq<char>
    decreases t.len(),
{
    if t.len() > 0 && is_space_char(t[t.len() - 1]) {
        trim_trailing_space(t.drop_last())
    } else {
        t
    }
}

/// Trimming `s.subrange(lo, j)` keeps exactly `s.subrange(lo, jt)` when the
/// characters of `[jt, j)` are whitespace and the one before `jt` (if any
/// remains) is not.
pub proof fn lemma_trim_as_subrange(s: Seq<char>, lo: int, jt: int, j: int)
    requires
        0 <= lo <= jt <= j <= s.len(),
        forall|k: int| jt <= k < j ==> is_space_char(#[trigger] s[k]),
        jt > lo ==> !is_space_char(s[jt - 1]),
    ensures
        trim_trailing_space(s.subrange(lo, j)) == s.subrange(lo, jt),
    decreases j - jt,
{
    if j > jt {
        assert(s.subrange(lo, j).drop_last() =~= s.subrange(lo, j - 1));
        lemma_trim_as_subrange(s, lo, jt, j - 1);
    }
}

/// The four fields one match extracts, each already trimmed of surrounding
/// whitespace.
pub ghost struct Captures {
    pub artist: Seq<char>,
    pub name: Seq<char>,
    pub year: Seq<char>,
    pub media: Seq<char>,
}

/// The match the pattern yields when anchored at position `p`, or `None`
/// when it does not fit there. The artist is the whole word run at `p`; the
/// title starts after the separator and extends greedily to the position
/// `name_end` picks; the year and media fields come from the tail match at
/// that position.
pub open spec fn match_at(s: Seq<char>, p: int) -> Option<Captures> {
    if !(0 <= p && p < s.len() && is_word_char(s[p])) {
        None
    } else {
        let a = run_end(s, p, word_class());
        let h = run_end(s, a, space_class());
        if !(h < s.len() && s[h] == '-') {
            None
        } else {
            let lo = run_end(s, h + 1, space_class());
            if !(lo < s.len() && is_title_open_char(s[lo])) {
                None
            } else {
                let open_end = run_end(s, lo, title_open_class());
                let hi = run_end(s, open_end, title_cont_class());
                match name_end(s, lo, hi) {
                    None => None,
                    Some(j) => match tail_match(s, j) {
                        None => None,
                        Some(t) => Some(
                            Captures {
                                artist: s.subrange(p, a),
                                name: trim_trailing_space(s.subrange(lo, j)),
                                year: s.subrange(t.open_paren + 1, t.open_paren + 5),
                                media: s.subrange(t.bracket + 1, t.bracket + 1 + t.media_len),
                            },
                        ),
                    },
                }
            }
        }
    }
}

/// The leftmost match at or after position `p`.
pub open spec fn find_match(s: Seq<char>, p: int) -> Option<Captures>
    decreases s.len() - p,
{
    if !(0 <= p && p < s.len()) {
        None
    } else if match_at(s, p) is Some {
        match_at(s, p)
    } else {
        find_match(s, p + 1)
    }
}

/// The extraction the whole library performs on a label: the leftmost match
/// of the pattern, or `None` when the pattern fits nowhere.
pub open spec fn extraction(s: Seq<char>) -> Option<Captures> {
    find_match(s, 0)
}

/// The four output fields in their fixed order — artist, album name, year,
/// media — each absent when the label carries no match.
pub open spec fn field_views(s: Seq<char>) -> Seq<Option<Seq<char>>> {
    match extraction(s) {
        Some(c) => seq![Some(c.artist), Some(c.name), Some(c.year), Some(c.media)],
        None => seq![None, None, None, None],
    }
}

/// `find_match(s, p)` is `None` exactly when no position at or after `p`
/// carries a match.
pub proof fn lemma_find_match_none(s: Seq<char>, p: int)
    requires
        0 <= p <= s.len(),
    ensures
        find_match(s, p) is None <==> forall|q: int|
            p <= q < s.len() ==> #[trigger] match_at(s, q) is None,
    decreases s.len() - p,
{
    if p < s.len() {
        lemma_find_match_none(s, p + 1);
    }
}

/// A successful `find_match(s, p)` is the match of some position at or after
/// `p`.
pub proof fn lemma_find_match_some(s: Seq<char>, p: int)
    requires
        0 <= p <= s.len(),
    ensures
        find_match(s, p) matches Some(c) ==> exists|q: int|
            p <= q < s.len() && #[trigger] match_at(s, q) == Some(c),
    decreases s.len() - p,
{
    if p < s.len() {
        lemma_find_match_some(s, p + 1);
    }
}

/// What trimming keeps: a prefix of the argument, still ending in a
/// non-whitespace character, and non-empty whenever the argument opened with
/// a non-whitespace character.
pub proof fn lemma_trim_trailing_space(t: Seq<char>)
    ensures
        trim_trailing_space(t).len() <= t.len(),
        trim_trailing_space(t) == t.subrange(0, trim_trailing_space(t).len() as int),
        trim_trailing_space(t).len() > 0 ==> !is_space_char(
            trim_trailing_space(t)[trim_trailing_space(t).len() - 1],
        ),
        t.len() > 0 && !is_space_char(t[0]) ==> trim_trailing_space(t).len() > 0,
    decreases t.len(),
{
    if t.len() > 0 && is_space_char(t[t.len() - 1]) {
        lemma_trim_trailing_space(t.drop_last());
        let w = trim_trailing_space(t.drop_last());
        assert(t.drop_last() =~= t.subrange(0, t.len() - 1));
        assert(t.subrange(0, t.len() - 1).subrange(0, w.len() as int) =~= t.subrange(
            0,
            w.len() as int,
        ));
    } else {
        assert(t =~= t.subrange(0, t.len() as int));
    }
}

/// The shape of the fields of any match: a non-empty artist made of word
/// characters only, a non-empty album title that neither starts nor ends in
/// whitespace and opens with a title-opening character, a year of exactly
/// four decimal digits, and a media tag out of the closed set.
pub proof fn lemma_match_at_wf(s: Seq<char>, p: int)
    ensures
        match_at(s, p) matches Some(c) ==> {
            &&& c.artist.len() > 0
            &&& forall|k: int| 0 <= k < c.artist.len() ==> is_word_char(#[trigger] c.artist[k])
            &&& c.name.len() > 0
            &&& is_title_open_char(c.name[0])
            &&& !is_space_char(c.name[0])
            &&& !is_space_char(c.name[c.name.len() - 1])
            &&& c.year.len() == 4
            &&& is_digit_char(c.year[0])
            &&& is_digit_char(c.year[1])
            &&& is_digit_char(c.year[2])
            &&& is_digit_char(c.year[3])
            &&& (c.media == seq!['D', 'D'] || c.media == seq!['F', 'L', 'A', 'C'])
        },
{
    if match_at(s, p) is Some {
        let a = run_end(s, p, word_class());
        lemma_run_end(s, p, word_class());
        assert(run_end(s, p, word_class()) == run_end(s, p + 1, word_class()));
        lemma_run_end(s, p + 1, word_class());
        let h = run_end(s, a, space_class());
        lemma_run_end(s, a, space_class());
        let lo = run_end(s, h + 1, space_class());
        lemma_run_end(s, h + 1, space_class());
        let open_end = run_end(s, lo, title_open_class());
        lemma_run_end(s, lo, title_open_class());
        let hi = run_end(s, open_end, title_cont_class());
        lemma_run_end(s, open_end, title_cont_class());
        lemma_name_end(s, lo, hi);
        let j = name_end(s, lo, hi).unwrap();
        lemma_tail_match(s, j);
        let t = s.subrange(lo, j);
        lemma_trim_trailing_space(t);
        let c = match_at(s, p).unwrap();
        assert forall|k: int| 0 <= k < c.artist.len() implies is_word_char(
            #[trigger] c.artist[k],
        ) by {
            assert(c.artist[k] == s[p + k]);
        }
        assert(c.name[0] == t[0]);
        if c.media.len() == 2 {
            assert(c.media =~= seq!['D', 'D']);
        } else {
            assert(c.media =~= seq!['F', 'L', 'A', 'C']);
        }
    }
}

/// The shape of the fields of any extraction, inherited from the match the
/// leftmost matching position yields.
pub proof fn lemma_extraction_wf(s: Seq<char>)
    ensures
        extraction(s) matches Some(c) ==> {
            &&& c.artist.len() > 0
            &&& forall|k: int| 0 <= k < c.artist.len() ==> is_word_char(#[trigger] c.artist[k])
            &&& c.name.len() > 0
            &&& is_title_open_char(c.name[0])
            &&& !is_space_char(c.name[0])
            &&& !is_space_char(c.name[c.name.len() - 1])
            &&& c.year.len() == 4
            &&& is_digit_char(c.year[0])
            &&& is_digit_char(c.year[1])
            &&& is_digit_char(c.year[2])
            &&& is_digit_char(c.year[3])
            &&& (c.media == seq!['D', 'D'] || c.media == seq!['F', 'L', 'A', 'C'])
        },
{
    lemma_find_match_some(s, 0);
    if extraction(s) is Some {
        let c = extraction(s).unwrap();
        let q = choose|q: int| 0 <= q < s.len() && #[trigger] match_at(s, q) == Some(c);
        lemma_match_at_wf(s, q);
    }
}

/// A label that carries the pattern at no position yields an extraction with
/// every field absent.
pub proof fn lemma_unmatched_label_has_no_fields(s: Seq<char>)
    requires
        forall|q: int| 0 <= q < s.len() ==> #[trigger] match_at(s, q) is None,
    ensures
        field_views(s) == seq![None::<Seq<char>>, None, None, None],
{
    lemma_find_match_none(s, 0);
}

/// A label without a hyphen has no artist/title separator, so the pattern
/// fits nowhere and every field is absent.
pub proof fn lemma_label_without_hyphen_has_no_fields(s: Seq<char>)
    requires
        forall|k: int| 0 <= k < s.len() ==> (#[trigger] s[k]) != '-',
    ensures
        field_views(s) == seq![None::<Seq<char>>, None, None, None],
{
    assert forall|q: int| 0 <= q < s.len() implies #[trigger] match_at(s, q) is None by {
        if is_word_char(s[q]) {
            lemma_run_end(s, q, word_class());
            lemma_run_end(s, run_end(s, q, word_class()), space_class());
        }
    }
    lemma_unmatched_label_has_no_fields(s);
}

/// Extraction is a pure function of the label: any two results that the
/// extractor's contract admits for the same label are identical.
pub proof fn lemma_extraction_deterministic(
    s: Seq<char>,
    r1: Seq<Option<Seq<char>>>,
    r2: Seq<Option<Seq<char>>>,
)
    requires
        r1 == field_views(s),
        r2 == field_views(s),
    ensures
        r1 == r2,
{
}

} // verus!

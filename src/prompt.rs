//! Decisions taken on what the user types.
use vstd::prelude::*;
use crate::lang::Language;
use crate::hw::is_ws;
use crate::strings::{lower_of, lowercase, str_eq};

verus! {

/// The language used when nobody is asked.
pub fn select_language_silent() -> (r: Language)
    ensures
        r == Language::Vietnamese,
{
    Language::Vietnamese
}

/// `s` without leading and trailing white space, as `str::trim` gives it.
pub open spec fn trimmed(s: Seq<char>) -> Seq<char>
    decreases s.len(),
{
    if s.len() > 0 && is_ws(s[0]) {
        trimmed(s.drop_first())
    } else if s.len() > 0 && is_ws(s.last()) {
        trimmed(s.drop_last())
    } else {
        s
    }
}

/// Strips leading and trailing white space.
pub fn trim_text(s: &str) -> (r: String)
    ensures
        r@ == trimmed(s@),
{
    let v = crate::strings::chars_of(s);
    let n = v.len();
    let mut lo: usize = 0;
    let mut hi: usize = n;
    assert(v@.subrange(0, n as int) =~= v@);
    while lo < hi && is_ws_at(&v, lo)
        invariant
            n == v@.len(),
            lo <= hi == n,
            trimmed(v@) == trimmed(v@.subrange(lo as int, hi as int)),
        decreases hi - lo,
    {
        assert(v@.subrange(lo as int, hi as int).drop_first() =~= v@.subrange(lo + 1, hi as int));
        lo = lo + 1;
    }
    while lo < hi && is_ws_at(&v, hi - 1)
        invariant
            n == v@.len(),
            lo <= hi <= n,
            trimmed(v@) == trimmed(v@.subrange(lo as int, hi as int)),
            lo < hi ==> !is_ws(v@[lo as int]),
        decreases hi - lo,
    {
        let ghost w = v@.subrange(lo as int, hi as int);
        assert(w.drop_last() =~= v@.subrange(lo as int, hi - 1));
        assert(!is_ws(w[0]));
        hi = hi - 1;
    }
    let ghost w = v@.subrange(lo as int, hi as int);
    assert(w.len() > 0 ==> !is_ws(w[0]) && !is_ws(w.last()));
    assert(trimmed(w) == w);
    let piece = s.substring_char(lo, hi);
    proof { assert(piece@ =~= w); }
    String::from_str(piece)
}

fn is_ws_at(v: &Vec<char>, i: usize) -> (r: bool)
    requires
        i < v@.len(),
    ensures
        r == is_ws(v@[i as int]),
{
    let c = v[i];
    ('\u{9}' <= c && c <= '\u{d}') || c == ' ' || c == '\u{85}' || c == '\u{a0}' || c == '\u{1680}'
        || ('\u{2000}' <= c && c <= '\u{200a}') || c == '\u{2028}' || c == '\u{2029}' || c == '\u{202f}'
        || c == '\u{205f}' || c == '\u{3000}'
}

/// An answer declines when, trimmed and lowercased, it is "n" or "no".
pub open spec fn declines(lowered: Seq<char>) -> bool {
    lowered == "n"@ || lowered == "no"@
}

/// Tells whether an already trimmed and lowercased answer declines.
pub fn answer_declines(lowered: &str) -> (r: bool)
    ensures
        r == declines(lowered@),
{
    str_eq(lowered, "n") || str_eq(lowered, "no")
}

/// Tells whether the answer to the torture prompt declines; anything else,
/// an empty answer included, confirms.
pub fn is_decline(input: &str) -> (r: bool)
    ensures
        r == declines(lower_of(trimmed(input@))),
{
    let t = trim_text(input);
    let l = lowercase(t.as_str());
    answer_declines(l.as_str())
}

/// Test duration in seconds for a level choice: "1" quick (15 s), "2"
/// normal (60 s), "3" deep (120 s); none for anything else.
pub open spec fn level_duration_spec(choice: Seq<char>) -> Option<u64> {
    if choice == "1"@ { Some(15) } else if choice == "2"@ { Some(60) } else if choice == "3"@ { Some(120) } else { None }
}

/// Maps a typed level choice, after trimming, to its test duration.
pub fn level_duration(input: &str) -> (r: Option<u64>)
    ensures
        r == level_duration_spec(trimmed(input@)),
{
    let t = trim_text(input);
    if str_eq(t.as_str(), "1") {
        Some(15)
    } else if str_eq(t.as_str(), "2") {
        Some(60)
    } else if str_eq(t.as_str(), "3") {
        Some(120)
    } else {
        None
    }
}

} // verus!

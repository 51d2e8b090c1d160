//! Hardware descriptions: GPU kind, power estimates from model names, and
//! values read from system reports.
use vstd::prelude::*;
use crate::lang::{Text, pick};
use crate::strings::{contains_seq, ends_with_seq, lower_of, lowercase, chars_of, seq_contains, seq_ends_with, str_eq};

verus! {

/// GPU type classification.
#[derive(Clone, Copy, Debug, PartialEq, Eq, Structural)]
pub enum GpuType {
    Integrated,
    Discrete,
    Unknown,
}

/// The GPU kind a lowercased model name indicates: integrated for Intel,
/// integrated, UHD, Iris, graphics or Apple M names; otherwise discrete for
/// NVIDIA, AMD, Radeon, GeForce, RTX, GTX or "rx " names; else unknown.
pub open spec fn gpu_type_of(lower: Seq<char>) -> GpuType {
    if contains_seq(lower, "intel"@) || contains_seq(lower, "integrated"@) || contains_seq(lower, "uhd"@)
        || contains_seq(lower, "iris"@) || contains_seq(lower, "graphics"@) || contains_seq(lower, "apple m"@) {
        GpuType::Integrated
    } else if contains_seq(lower, "nvidia"@) || contains_seq(lower, "amd"@) || contains_seq(lower, "radeon"@)
        || contains_seq(lower, "geforce"@) || contains_seq(lower, "rtx"@) || contains_seq(lower, "gtx"@)
        || contains_seq(lower, "rx "@) {
        GpuType::Discrete
    } else {
        GpuType::Unknown
    }
}

fn has(s: &Vec<char>, p: &str) -> (r: bool)
    ensures
        r == contains_seq(s@, p@),
{
    let pv = chars_of(p);
    seq_contains(s, &pv)
}

fn ends(s: &Vec<char>, p: &str) -> (r: bool)
    ensures
        r == ends_with_seq(s@, p@),
{
    let pv = chars_of(p);
    seq_ends_with(s, &pv)
}

impl GpuType {
    pub fn as_str(&self) -> (r: &str)
        ensures
            r@ == match self {
                GpuType::Integrated => "Integrated"@,
                GpuType::Discrete => "Discrete"@,
                GpuType::Unknown => "Unknown"@,
            },
    {
        match self {
            GpuType::Integrated => "Integrated",
            GpuType::Discrete => "Discrete",
            GpuType::Unknown => "Unknown",
        }
    }

    /// The name of the kind in the language of `text`.
    pub fn as_localized_str<'a>(&'a self, text: &'a Text) -> (r: &'a str)
        ensures
            r@ == match self {
                GpuType::Integrated => pick(text.lang, "Tích hợp"@, "Integrated"@),
                GpuType::Discrete => pick(text.lang, "Rời"@, "Discrete"@),
                GpuType::Unknown => pick(text.lang, "Không rõ"@, "Unknown"@),
            },
    {
        match self {
            GpuType::Integrated => text.gpu_type_integrated(),
            GpuType::Discrete => text.gpu_type_discrete(),
            GpuType::Unknown => text.gpu_type_unknown(),
        }
    }

    /// Classifies an already lowercased model name.
    pub fn from_lowered(lower: &str) -> (r: GpuType)
        ensures
            r == gpu_type_of(lower@),
    {
        let l = chars_of(lower);
        if has(&l, "intel") || has(&l, "integrated") || has(&l, "uhd") || has(&l, "iris") || has(&l, "graphics")
            || has(&l, "apple m") {
            GpuType::Integrated
        } else if has(&l, "nvidia") || has(&l, "amd") || has(&l, "radeon") || has(&l, "geforce") || has(&l, "rtx")
            || has(&l, "gtx") || has(&l, "rx ") {
            GpuType::Discrete
        } else {
            GpuType::Unknown
        }
    }

    /// Detects the GPU kind from its model name, case-insensitively.
    pub fn from_model(model: &str) -> (r: GpuType)
        ensures
            r == gpu_type_of(lower_of(model@)),
    {
        let lower = lowercase(model);
        GpuType::from_lowered(lower.as_str())
    }
}

/// Estimated thermal design power in watts: exact Apple M1-M3 Pro, Max and
/// Ultra names give 15, 30 and 60; Intel, AMD, Core or Ryzen names ending in
/// "u", "g7", "g5" or "g1", or holding "/p", give 15; names ending in "h",
/// "hk", "hx" or "mq", or holding "hq", give 45; other names give none.
/// `lower` is the lowercased name.
pub open spec fn tdp_estimate(model: Seq<char>, lower: Seq<char>) -> Option<u32> {
    if model == "Apple M1 Pro"@ || model == "Apple M2 Pro"@ || model == "Apple M3 Pro"@ {
        Some(15)
    } else if model == "Apple M1 Max"@ || model == "Apple M2 Max"@ || model == "Apple M3 Max"@ {
        Some(30)
    } else if model == "Apple M1 Ultra"@ || model == "Apple M2 Ultra"@ || model == "Apple M3 Ultra"@ {
        Some(60)
    } else if (contains_seq(lower, "intel"@) || contains_seq(lower, "amd"@) || contains_seq(lower, "core"@)
        || contains_seq(lower, "ryzen"@)) && (ends_with_seq(lower, "u"@) || ends_with_seq(lower, "g7"@)
        || ends_with_seq(lower, "g5"@) || ends_with_seq(lower, "g1"@) || contains_seq(lower, "/p"@)) {
        Some(15)
    } else if ends_with_seq(lower, "h"@) || ends_with_seq(lower, "hk"@) || ends_with_seq(lower, "hx"@)
        || contains_seq(lower, "hq"@) || ends_with_seq(lower, "mq"@) {
        Some(45)
    } else {
        None
    }
}

/// Estimates the TDP from a model name and its lowercased form.
pub fn estimate_tdp_from_lowered(model: &str, lower: &str) -> (r: Option<u32>)
    ensures
        r == tdp_estimate(model@, lower@),
{
    if str_eq(model, "Apple M1 Pro") || str_eq(model, "Apple M2 Pro") || str_eq(model, "Apple M3 Pro") {
        return Some(15);
    }
    if str_eq(model, "Apple M1 Max") || str_eq(model, "Apple M2 Max") || str_eq(model, "Apple M3 Max") {
        return Some(30);
    }
    if str_eq(model, "Apple M1 Ultra") || str_eq(model, "Apple M2 Ultra") || str_eq(model, "Apple M3 Ultra") {
        return Some(60);
    }
    let l = chars_of(lower);
    let is_intel_amd = has(&l, "intel") || has(&l, "amd") || has(&l, "core") || has(&l, "ryzen");
    if is_intel_amd && (ends(&l, "u") || ends(&l, "g7") || ends(&l, "g5") || ends(&l, "g1") || has(&l, "/p")) {
        return Some(15);
    }
    if ends(&l, "h") || ends(&l, "hk") || ends(&l, "hx") || has(&l, "hq") || ends(&l, "mq") {
        return Some(45);
    }
    None
}

/// Estimates the TDP of a CPU from its model name.
pub fn estimate_tdp_from_model(model: &str) -> (r: Option<u32>)
    ensures
        r == tdp_estimate(model@, lower_of(model@)),
{
    let lower = lowercase(model);
    estimate_tdp_from_lowered(model, lower.as_str())
}

/// Unicode white space, as `char::is_whitespace` defines it.
pub open spec fn is_ws(c: char) -> bool {
    ('\u{9}' <= c && c <= '\u{d}') || c == ' ' || c == '\u{85}' || c == '\u{a0}' || c == '\u{1680}'
        || ('\u{2000}' <= c && c <= '\u{200a}') || c == '\u{2028}' || c == '\u{2029}' || c == '\u{202f}'
        || c == '\u{205f}' || c == '\u{3000}'
}

fn is_ws_char(c: char) -> (r: bool)
    ensures
        r == is_ws(c),
{
    ('\u{9}' <= c && c <= '\u{d}') || c == ' ' || c == '\u{85}' || c == '\u{a0}' || c == '\u{1680}'
        || ('\u{2000}' <= c && c <= '\u{200a}') || c == '\u{2028}' || c == '\u{2029}' || c == '\u{202f}'
        || c == '\u{205f}' || c == '\u{3000}'
}

/// The first index at or after `i` that is not white space (or the end).
pub open spec fn skip_ws(s: Seq<char>, i: int) -> int
    decreases s.len() - i,
{
    if i < 0 || i >= s.len() || !is_ws(s[i]) { i } else { skip_ws(s, i + 1) }
}

/// The first index at or after `i` that is white space (or the end).
pub open spec fn token_end(s: Seq<char>, i: int) -> int
    decreases s.len() - i,
{
    if i < 0 || i >= s.len() || is_ws(s[i]) { i } else { token_end(s, i + 1) }
}

/// The first white-space separated word of `s` (empty when there is none).
pub open spec fn first_word(s: Seq<char>) -> Seq<char> {
    s.subrange(skip_ws(s, 0), token_end(s, skip_ws(s, 0)))
}

pub open spec fn is_digit(c: char) -> bool {
    '0' <= c && c <= '9'
}

/// The value of a string of decimal digits.
pub open spec fn digits_value(d: Seq<char>) -> nat
    decreases d.len(),
{
    if d.len() == 0 { 0 } else { digits_value(d.drop_last()) * 10 + ((d.last() as int - '0' as int) as nat) }
}

/// A `u32` written in decimal, with an optional leading '+', as
/// `str::parse::<u32>` accepts it.
pub open spec fn parse_u32_spec(t: Seq<char>) -> Option<u32> {
    let d = unsigned_part(t);
    if d.len() == 0 || !all_digits(d) {
        None
    } else if digits_value(d) > u32::MAX {
        None
    } else {
        Some(digits_value(d) as u32)
    }
}

/// `t` without one leading '+'.
pub open spec fn unsigned_part(t: Seq<char>) -> Seq<char> {
    if t.len() > 0 && t[0] == '+' { t.drop_first() } else { t }
}

/// Every character of `d` is a decimal digit.
pub open spec fn all_digits(d: Seq<char>) -> bool {
    forall|i: int| 0 <= i < d.len() ==> is_digit(#[trigger] d[i])
}

proof fn lemma_skip_ws_bounds(s: Seq<char>, i: int)
    requires
        0 <= i <= s.len(),
    ensures
        i <= skip_ws(s, i) <= s.len(),
        forall|k: int| i <= k < skip_ws(s, i) ==> is_ws(#[trigger] s[k]),
        skip_ws(s, i) < s.len() ==> !is_ws(s[skip_ws(s, i)]),
    decreases s.len() - i,
{
    if i < s.len() && is_ws(s[i]) {
        lemma_skip_ws_bounds(s, i + 1);
    }
}

proof fn lemma_token_end_bounds(s: Seq<char>, i: int)
    requires
        0 <= i <= s.len(),
    ensures
        i <= token_end(s, i) <= s.len(),
        forall|k: int| i <= k < token_end(s, i) ==> !is_ws(#[trigger] s[k]),
        token_end(s, i) < s.len() ==> is_ws(s[token_end(s, i)]),
    decreases s.len() - i,
{
    if i < s.len() && !is_ws(s[i]) {
        lemma_token_end_bounds(s, i + 1);
    }
}

proof fn lemma_digits_grow(d: Seq<char>, k: int)
    requires
        0 <= k <= d.len(),
        forall|i: int| 0 <= i < d.len() ==> is_digit(#[trigger] d[i]),
    ensures
        digits_value(d.subrange(0, k)) <= digits_value(d),
    decreases d.len() - k,
{
    if k < d.len() {
        lemma_digits_grow(d, k + 1);
        let p = d.subrange(0, k + 1);
        assert(p.drop_last() =~= d.subrange(0, k));
    } else {
        assert(d.subrange(0, k) =~= d);
    }
}

/// Reads `v[start..end]` as a `u32`, as `str::parse::<u32>` does.
pub fn parse_u32_range(v: &Vec<char>, start: usize, end: usize) -> (r: Option<u32>)
    requires
        start <= end <= v@.len(),
    ensures
        r == parse_u32_spec(v@.subrange(start as int, end as int)),
{
    let n = v.len();
    let ghost t = v@.subrange(start as int, end as int);
    let mut k = start;
    if k < end && v[k] == '+' {
        k = k + 1;
    }
    let ghost d = unsigned_part(t);
    assert(d =~= v@.subrange(k as int, end as int));
    if k == end {
        return None;
    }
    let mut acc: u64 = 0;
    let mut m = k;
    while m < end
        invariant
            n == v@.len(),
            k <= m <= end <= n,
            t == v@.subrange(start as int, end as int),
            d == unsigned_part(t),
            d == v@.subrange(k as int, end as int),
            forall|i: int| k <= i < m ==> is_digit(#[trigger] v@[i]),
            acc == digits_value(v@.subrange(k as int, m as int)),
            acc <= u32::MAX,
        decreases end - m,
    {
        let c = v[m];
        if !('0' <= c && c <= '9') {
            assert(d[(m - k) as int] == v@[m as int]);
            assert(!is_digit(d[(m - k) as int]));
            return None;
        }
        let digit = (c as u32 - '0' as u32) as u64;
        proof {
            assert(v@.subrange(k as int, m + 1).drop_last() =~= v@.subrange(k as int, m as int));
        }
        acc = acc * 10 + digit;
        assert(acc == digits_value(v@.subrange(k as int, m + 1)));
        if acc > u32::MAX as u64 {
            proof {
                assert forall|i: int| k <= i < m + 1 implies is_digit(#[trigger] v@[i]) by {}
                if all_digits(d) {
                    lemma_digits_grow(d, m + 1 - k);
                    assert(d.subrange(0, m + 1 - k) =~= v@.subrange(k as int, m + 1));
                }
            }
            return None;
        }
        m = m + 1;
    }
    proof {
        assert(v@.subrange(k as int, end as int) =~= d);
        assert forall|i: int| 0 <= i < d.len() implies is_digit(#[trigger] d[i]) by {
            assert(d[i] == v@[k + i]);
        }
    }
    Some(acc as u32)
}

/// Reads a speed in MHz from text such as "3200 MHz": the first word, as a
/// `u32`.
pub fn parse_speed_mhz(s: &str) -> (r: Option<u32>)
    ensures
        r == parse_u32_spec(first_word(s@)),
{
    let v = chars_of(s);
    let n = v.len();
    let mut i: usize = 0;
    while i < n && is_ws_char(v[i])
        invariant
            n == v@.len(),
            i <= n,
            skip_ws(v@, 0) == skip_ws(v@, i as int),
        decreases n - i,
    {
        i = i + 1;
    }
    let start = i;
    let mut j: usize = start;
    while j < n && !is_ws_char(v[j])
        invariant
            n == v@.len(),
            start <= j <= n,
            start == skip_ws(v@, 0),
            token_end(v@, start as int) == token_end(v@, j as int),
        decreases n - j,
    {
        j = j + 1;
    }
    let end = j;
    assert(v@.subrange(start as int, end as int) == first_word(s@));
    parse_u32_range(&v, start, end)
}

} // verus!

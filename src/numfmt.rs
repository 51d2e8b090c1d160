//! Decimal rendering of integers, as used in every report line.
use vstd::prelude::*;

verus! {

/// The character of a decimal digit.
pub open spec fn digit_char(d: nat) -> char {
    if d == 0 { '0' }
    else if d == 1 { '1' }
    else if d == 2 { '2' }
    else if d == 3 { '3' }
    else if d == 4 { '4' }
    else if d == 5 { '5' }
    else if d == 6 { '6' }
    else if d == 7 { '7' }
    else if d == 8 { '8' }
    else { '9' }
}

/// Decimal digits of `n`, most significant first, with no leading zeros
/// ("0" for zero).
pub open spec fn decimal(n: nat) -> Seq<char>
    decreases n,
{
    if n < 10 {
        seq![digit_char(n)]
    } else {
        decimal(n / 10).push(digit_char(n % 10))
    }
}

/// One decimal digit as a one-character string.
fn digit_str(d: u64) -> (r: &'static str)
    requires
        d < 10,
    ensures
        r@ == seq![digit_char(d as nat)],
{
    proof {
        reveal_strlit("0");
        reveal_strlit("1");
        reveal_strlit("2");
        reveal_strlit("3");
        reveal_strlit("4");
        reveal_strlit("5");
        reveal_strlit("6");
        reveal_strlit("7");
        reveal_strlit("8");
        reveal_strlit("9");
    }
    let r = if d == 0 { "0" }
    else if d == 1 { "1" }
    else if d == 2 { "2" }
    else if d == 3 { "3" }
    else if d == 4 { "4" }
    else if d == 5 { "5" }
    else if d == 6 { "6" }
    else if d == 7 { "7" }
    else if d == 8 { "8" }
    else { "9" };
    assert(r@ =~= seq![digit_char(d as nat)]);
    r
}

/// One decimal digit as a one-character string.
pub fn digit_str_pub(d: u64) -> (r: &'static str)
    requires
        d < 10,
    ensures
        r@ == seq![digit_char(d as nat)],
{
    digit_str(d)
}

/// Renders `n` in decimal, as `n.to_string()` does.
pub fn decimal_string(n: u64) -> (r: String)
    ensures
        r@ == decimal(n as nat),
    decreases n,
{
    if n < 10 {
        let mut s = String::new();
        s.append(digit_str(n));
        assert(s@ =~= decimal(n as nat));
        s
    } else {
        let mut s = decimal_string(n / 10);
        s.append(digit_str(n % 10));
        assert(s@ =~= decimal(n as nat));
        s
    }
}


/// The decimal digits of `n` as values, most significant first.
fn decimal_digits(n: u64) -> (v: Vec<u64>)
    ensures
        v@.len() == decimal(n as nat).len(),
        forall|i: int| 0 <= i < v@.len() ==> #[trigger] v@[i] < 10 && digit_char(v@[i] as nat) == decimal(n as nat)[i],
    decreases n,
{
    if n < 10 {
        let mut v: Vec<u64> = Vec::new();
        v.push(n);
        v
    } else {
        let mut v = decimal_digits(n / 10);
        v.push(n % 10);
        v
    }
}

/// Absolute value of a value given in tenths, in whole units and tenths.
pub open spec fn abs_int(v: int) -> nat {
    if v < 0 { (-v) as nat } else { v as nat }
}

/// A value given in tenths, written with one decimal place, as `{:.1}`
/// writes it ("-3.5", "0.0", "97.3").
pub open spec fn tenths_text(v: int) -> Seq<char> {
    let a = abs_int(v);
    let sign: Seq<char> = if v < 0 { seq!['-'] } else { Seq::empty() };
    sign + decimal(a / 10) + seq!['.', digit_char(a % 10)]
}

/// A value given in thousandths, written with three decimal places.
pub open spec fn thousandths_text(v: nat) -> Seq<char> {
    decimal(v / 1000) + seq!['.', digit_char((v % 1000) / 100), digit_char((v % 100) / 10), digit_char(v % 10)]
}

/// Renders a value given in tenths with one decimal place.
pub fn tenths_string(v: i64) -> (r: String)
    ensures
        r@ == tenths_text(v as int),
{
    let a: u64 = if v < 0 { ((0i64 - (v + 1)) as u64) + 1 } else { v as u64 };
    assert(a as nat == abs_int(v as int));
    let mut s = String::new();
    if v < 0 {
        proof { reveal_strlit("-"); }
        s.append("-");
    }
    let whole = decimal_string(a / 10);
    s.append(whole.as_str());
    proof { reveal_strlit("."); }
    s.append(".");
    s.append(digit_str(a % 10));
    assert(s@ =~= tenths_text(v as int));
    s
}

/// Renders a non-negative value given in tenths with one decimal place.
pub fn tenths_string_u64(v: u64) -> (r: String)
    ensures
        r@ == tenths_text(v as int),
{
    let mut s = decimal_string(v / 10);
    proof { reveal_strlit("."); }
    s.append(".");
    s.append(digit_str(v % 10));
    assert(s@ =~= tenths_text(v as int));
    s
}

/// Renders a value given in thousandths with three decimal places.
pub fn thousandths_string(v: u64) -> (r: String)
    ensures
        r@ == thousandths_text(v as nat),
{
    let mut s = decimal_string(v / 1000);
    proof { reveal_strlit("."); }
    s.append(".");
    s.append(digit_str((v % 1000) / 100));
    s.append(digit_str((v % 100) / 10));
    s.append(digit_str(v % 10));
    assert(s@ =~= thousandths_text(v as nat));
    s
}

/// The digits `d[..k]` with a comma before each digit that starts a group
/// of three counted from the right end of `d`.
pub open spec fn grouped_prefix(d: Seq<char>, k: nat) -> Seq<char>
    decreases k,
{
    if k == 0 {
        Seq::empty()
    } else {
        let i = (k - 1) as nat;
        let piece: Seq<char> = if i > 0 && (d.len() - i) % 3 == 0 { seq![',', d[i as int]] } else { seq![d[i as int]] };
        grouped_prefix(d, i) + piece
    }
}

/// Decimal digits of `n` with thousands separators ("1,234,567").
pub open spec fn grouped_decimal(n: nat) -> Seq<char> {
    grouped_prefix(decimal(n), decimal(n).len())
}

/// Formats `n` in decimal with a comma between groups of three digits.
pub fn format_grouped(n: u64) -> (r: String)
    ensures
        r@ == grouped_decimal(n as nat),
{
    let digits = decimal_digits(n);
    let ghost d = decimal(n as nat);
    let len = digits.len();
    let mut s = String::new();
    let mut i: usize = 0;
    while i < len
        invariant
            len == digits@.len() == d.len(),
            i <= len,
            forall|j: int| 0 <= j < digits@.len() ==> #[trigger] digits@[j] < 10 && digit_char(digits@[j] as nat) == d[j],
            s@ == grouped_prefix(d, i as nat),
        decreases len - i,
    {
        proof { reveal_strlit(","); }
        if i > 0 && (len - i) % 3 == 0 {
            s.append(",");
        }
        s.append(digit_str(digits[i]));
        proof {
            assert(digit_char(digits@[i as int] as nat) == d[i as int]);
            assert(s@ =~= grouped_prefix(d, (i + 1) as nat));
        }
        i = i + 1;
    }
    s
}

} // verus!

//! Terminal formatting: colors, numbers, bars and table rows.
use vstd::prelude::*;
use crate::numfmt::{decimal, decimal_string, grouped_decimal, format_grouped, tenths_text};

verus! {

pub const RESET: &'static str = "\x1b[0m";
pub const CYAN: &'static str = "\x1b[36m";
pub const YELLOW: &'static str = "\x1b[1;33m";
pub const GREEN: &'static str = "\x1b[32m";
pub const ORANGE: &'static str = "\x1b[38;5;208m";
pub const RED: &'static str = "\x1b[31m";
pub const DARK_GRAY: &'static str = "\x1b[90m";

/// Color for a temperature in tenths of a degree: green under 60 °C,
/// yellow under 75 °C, orange under 85 °C, red from there.
pub fn temp_color(temp: i64) -> (r: &'static str)
    ensures
        r@ == if temp < 600 { "\x1b[32m"@ } else if temp < 750 { "\x1b[1;33m"@ } else if temp < 850 { "\x1b[38;5;208m"@ } else { "\x1b[31m"@ },
{
    if temp < 600 {
        "\x1b[32m"
    } else if temp < 750 {
        "\x1b[1;33m"
    } else if temp < 850 {
        "\x1b[38;5;208m"
    } else {
        "\x1b[31m"
    }
}

/// Color for a CPU usage in tenths of a percent: red above 90 %, green
/// above 50 %, gray otherwise.
pub fn usage_color(usage: u64) -> (r: &'static str)
    ensures
        r@ == if usage > 900 { "\x1b[31m"@ } else if usage > 500 { "\x1b[32m"@ } else { "\x1b[90m"@ },
{
    if usage > 900 {
        "\x1b[31m"
    } else if usage > 500 {
        "\x1b[32m"
    } else {
        "\x1b[90m"
    }
}

/// Temperature status label for a temperature in tenths of a degree.
pub fn temp_status(temp: i64) -> (r: &'static str)
    ensures
        r@ == if temp < 600 { "✅ Rất tốt"@ } else if temp < 750 { "✅ Ổn định"@ } else if temp < 850 { "⚠️ Ấm"@ } else { "❌ Nóng"@ },
{
    if temp < 600 {
        "✅ Rất tốt"
    } else if temp < 750 {
        "✅ Ổn định"
    } else if temp < 850 {
        "⚠️ Ấm"
    } else {
        "❌ Nóng"
    }
}

/// Formats a number with a comma between groups of three digits.
pub fn format_number(n: u64) -> (r: String)
    ensures
        r@ == grouped_decimal(n as nat),
{
    format_grouped(n)
}

/// `n` divided by `unit`, rounded to the nearest tenth (halves up).
pub open spec fn scaled_tenths(n: nat, unit: nat) -> nat
    recommends
        unit > 0,
{
    (n * 10 + unit / 2) / unit
}

/// A count abbreviated in Vietnamese: billions ("Tỷ") and millions
/// ("Triệu") with one decimal place, smaller numbers grouped in full.
pub open spec fn large_number_text(n: nat) -> Seq<char> {
    if n >= 1_000_000_000 {
        tenths_text(scaled_tenths(n, 1_000_000_000) as int) + " Tỷ"@
    } else if n >= 1_000_000 {
        tenths_text(scaled_tenths(n, 1_000_000) as int) + " Triệu"@
    } else {
        grouped_decimal(n)
    }
}

/// Abbreviates a large count.
pub fn format_large_number(n: u64) -> (r: String)
    ensures
        r@ == large_number_text(n as nat),
{
    if n >= 1_000_000_000 {
        let t = ((n as u128) * 10 + 500_000_000) / 1_000_000_000;
        let s = crate::numfmt::tenths_string_u64(t as u64);
        s.concat(" Tỷ")
    } else if n >= 1_000_000 {
        let t = ((n as u128) * 10 + 500_000) / 1_000_000;
        let s = crate::numfmt::tenths_string_u64(t as u64);
        s.concat(" Triệu")
    } else {
        format_grouped(n)
    }
}

/// A count abbreviated in the language of the texts: billions and millions
/// with one decimal place and the language's word, smaller numbers grouped
/// in full.
pub open spec fn large_number_text_in(n: nat, lang: crate::lang::Language) -> Seq<char> {
    if n >= 1_000_000_000 {
        tenths_text(scaled_tenths(n, 1_000_000_000) as int) + " "@ + crate::lang::pick(lang, "Tỷ"@, "Billion"@)
    } else if n >= 1_000_000 {
        tenths_text(scaled_tenths(n, 1_000_000) as int) + " "@ + crate::lang::pick(lang, "Triệu"@, "Million"@)
    } else {
        grouped_decimal(n)
    }
}

/// Abbreviates a large count in the language of `text`.
pub fn format_large_number_i18n(n: u64, text: &crate::lang::Text) -> (r: String)
    ensures
        r@ == large_number_text_in(n as nat, text.lang),
{
    if n >= 1_000_000_000 {
        let t = ((n as u128) * 10 + 500_000_000) / 1_000_000_000;
        crate::health::join3(crate::numfmt::tenths_string_u64(t as u64).as_str(), " ", text.billion_suffix())
    } else if n >= 1_000_000 {
        let t = ((n as u128) * 10 + 500_000) / 1_000_000;
        crate::health::join3(crate::numfmt::tenths_string_u64(t as u64).as_str(), " ", text.million_suffix())
    } else {
        format_grouped(n)
    }
}

/// `s` written `n` times.
pub open spec fn repeat_seq(s: Seq<char>, n: nat) -> Seq<char>
    decreases n,
{
    if n == 0 { Seq::empty() } else { repeat_seq(s, (n - 1) as nat) + s }
}

/// Appends `piece` to `out` `n` times.
pub fn push_repeated(out: &mut String, piece: &str, n: usize)
    ensures
        final(out)@ == old(out)@ + repeat_seq(piece@, n as nat),
{
    let mut i: usize = 0;
    while i < n
        invariant
            i <= n,
            out@ == old(out)@ + repeat_seq(piece@, i as nat),
        decreases n - i,
    {
        out.append(piece);
        i = i + 1;
        assert(out@ =~= old(out)@ + repeat_seq(piece@, i as nat));
    }
}

/// Cells filled by a bar of `width` cells at `percent`.
pub open spec fn filled_cells(percent: nat, width: nat) -> nat {
    if percent * width / 100 > width { width } else { percent * width / 100 }
}

/// A colored progress bar of `width` cells: green full cells, then gray
/// empty ones.
pub open spec fn progress_bar_text(percent: nat, width: nat) -> Seq<char> {
    "\x1b[32m"@ + repeat_seq("█"@, filled_cells(percent, width)) + "\x1b[90m"@
        + repeat_seq("░"@, (width - filled_cells(percent, width)) as nat) + "\x1b[0m"@
}

/// Draws a progress bar.
pub fn progress_bar(percent: u8, width: usize) -> (r: String)
    ensures
        r@ == progress_bar_text(percent as nat, width as nat),
{
    assert((percent as int) * (width as int) <= 255 * (usize::MAX as int)) by (nonlinear_arith)
        requires percent <= 255, width <= usize::MAX;
    let product = (percent as u128) * (width as u128);
    let q = product / 100;
    let filled: usize = if q > width as u128 { width } else { q as usize };
    let empty = width - filled;
    let mut s = String::from_str("\x1b[32m");
    push_repeated(&mut s, "█", filled);
    s.append("\x1b[90m");
    push_repeated(&mut s, "░", empty);
    s.append("\x1b[0m");
    s
}

/// Cells filled in a ten-cell health bar: the percentage in tenths,
/// rounded half up.
pub open spec fn health_cells(percentage: nat) -> nat {
    (percentage + 5) / 10
}

/// A ten-cell health bar followed by the percentage; its cells are solid
/// from 70 %, medium from 30 %, light below.
pub open spec fn health_bar_text(percentage: nat) -> Seq<char> {
    let cell = if percentage >= 70 { "█"@ } else if percentage >= 30 { "▓"@ } else { "▒"@ };
    "["@ + repeat_seq(cell, health_cells(percentage)) + repeat_seq("░"@, (10 - health_cells(percentage)) as nat) + "]"@
        + decimal(percentage)
}

/// Draws a health bar such as "[██████░░░░]60".
pub fn create_health_bar(percentage: u8) -> (r: String)
    requires
        percentage < 105,
    ensures
        r@ == health_bar_text(percentage as nat),
{
    let filled: usize = ((percentage as usize) + 5) / 10;
    let empty: usize = 10 - filled;
    let cell = if percentage >= 70 { "█" } else if percentage >= 30 { "▓" } else { "▒" };
    let mut s = String::from_str("[");
    push_repeated(&mut s, cell, filled);
    push_repeated(&mut s, "░", empty);
    s.append("]");
    let p = decimal_string(percentage as u64);
    s.append(p.as_str());
    s
}

/// Inner width of a result table, in characters.
pub const BOX_WIDTH: usize = 52;

/// A table row: the label, a colon, and the value pushed right so the row
/// spans the box's inner width when it fits.
pub open spec fn table_row_text(label: Seq<char>, value: Seq<char>) -> Seq<char> {
    let used = label.len() + 2 + value.len();
    let padding: nat = if used >= BOX_WIDTH { 0 } else { (BOX_WIDTH - used) as nat };
    "│ "@ + label + ": "@ + repeat_seq(" "@, padding) + value + " │"@
}

/// Formats one row of a result table.
pub fn table_row(label: &str, value: &str) -> (r: String)
    ensures
        r@ == table_row_text(label@, value@),
{
    let label_len = label.unicode_len();
    let value_len = value.unicode_len();
    let padding: usize = if label_len >= BOX_WIDTH || value_len >= BOX_WIDTH || label_len + 2 + value_len >= BOX_WIDTH {
        0
    } else {
        BOX_WIDTH - (label_len + 2 + value_len)
    };
    let mut s = String::from_str("│ ");
    s.append(label);
    s.append(": ");
    push_repeated(&mut s, " ", padding);
    s.append(value);
    s.append(" │");
    s
}

/// A core number written with at least two digits.
pub open spec fn two_digit_text(i: nat) -> Seq<char> {
    if i < 10 { seq!['0'] + decimal(i) } else { decimal(i) }
}

/// One core in the detailed per-core view: "C05: [████░░░░░░] 42%", with
/// colors.
pub open spec fn core_verbose_text(i: nat, usage: nat, filled: nat) -> Seq<char> {
    "\x1b[36m"@ + "C"@ + two_digit_text(i) + ":"@ + "\x1b[0m"@ + " ["@ + "\x1b[32m"@ + repeat_seq("█"@, filled)
        + "\x1b[90m"@ + repeat_seq("░"@, (10 - filled) as nat) + "] "@ + decimal(usage) + "%"@
}

/// Formats one core in the detailed per-core view.
pub fn format_core_display_verbose(i: usize, usage_int: u32, bar_filled: usize) -> (r: String)
    requires
        bar_filled <= 10,
    ensures
        r@ == core_verbose_text(i as nat, usage_int as nat, bar_filled as nat),
{
    let mut s = String::from_str("\x1b[36m");
    s.append("C");
    if i < 10 {
        s.append("0");
    }
    let idx = decimal_string(i as u64);
    s.append(idx.as_str());
    s.append(":");
    s.append("\x1b[0m");
    s.append(" [");
    s.append("\x1b[32m");
    push_repeated(&mut s, "█", bar_filled);
    s.append("\x1b[90m");
    push_repeated(&mut s, "░", 10 - bar_filled);
    s.append("] ");
    let u = decimal_string(usage_int as u64);
    s.append(u.as_str());
    s.append("%");
    proof {
        reveal_strlit("0");
    }
    assert(s@ =~= core_verbose_text(i as nat, usage_int as nat, bar_filled as nat));
    s
}

/// Cells of the ten-cell usage bar for a whole-percent usage.
pub fn usage_bar_cells(usage_int: u32) -> (r: usize)
    ensures
        r == if usage_int as nat * 10 / 100 > 10 { 10 } else { usage_int as nat * 10 / 100 },
        r <= 10,
{
    let c = (usage_int as u64) * 10 / 100;
    if c > 10 { 10 } else { c as usize }
}

/// One core in the compact view: "C5:42% ", colored by usage (tenths of a
/// percent).
pub open spec fn core_normal_text(i: nat, usage: nat) -> Seq<char> {
    let color = if usage > 900 { "\x1b[31m"@ } else if usage > 500 { "\x1b[32m"@ } else { "\x1b[90m"@ };
    "\x1b[36m"@ + "C"@ + decimal(i) + ":"@ + color + decimal(usage / 10) + "%"@ + "\x1b[0m"@ + " "@
}

/// Formats one core in the compact view.
pub fn format_core_display_normal(i: usize, display_usage: u64) -> (r: String)
    ensures
        r@ == core_normal_text(i as nat, display_usage as nat),
{
    let color = usage_color(display_usage);
    let mut s = String::from_str("\x1b[36m");
    s.append("C");
    let idx = decimal_string(i as u64);
    s.append(idx.as_str());
    s.append(":");
    s.append(color);
    let u = decimal_string(display_usage / 10);
    s.append(u.as_str());
    s.append("%");
    s.append("\x1b[0m");
    s.append(" ");
    s
}

} // verus!

//! The live dashboard of the torture test: five lines redrawn in place.
use vstd::prelude::*;
use crate::lang::{Language, Text, pick};
use crate::numfmt::{decimal, decimal_string, digit_char, thousandths_string, thousandths_text};
use crate::ram_lane::RamMetrics;
use crate::disk_lane::DiskMetrics;
use crate::gpu_lane::GpuMetrics;
use crate::torture::{CpuPartialResult, RamPartialResult, DiskPartialResult, GpuPartialResult};
use crate::numfmt::{tenths_string, tenths_text};

verus! {

/// What the dashboard shows of the CPU lane; temperature in tenths of a
/// degree.
pub struct CpuMetrics {
    pub load_pct: u64,
    pub temp_c: Option<i64>,
    pub freq_mhz: u64,
    pub operations: u64,
}

/// Escape sequence that moves the cursor up over the five dashboard lines.
pub const MOVE_UP_LINES: &'static str = "\x1b[5A";

/// Progress of the run in whole percent, at most 100 (100 for a zero
/// total).
pub open spec fn progress_pct(elapsed: nat, total: nat) -> nat {
    if total == 0 || elapsed * 100 / total > 100 { 100 } else { elapsed * 100 / total }
}

/// A whole number with its sign.
pub open spec fn signed_decimal(v: int) -> Seq<char> {
    if v < 0 { seq!['-'] + decimal((-v) as nat) } else { decimal(v as nat) }
}

/// Whole degrees of a temperature in tenths, cut toward zero.
pub open spec fn whole_degrees(t: int) -> int {
    if t >= 0 { t / 10 } else { -((-t) / 10) }
}

/// A frequency in MHz as GHz with two decimals, rounded half up.
pub open spec fn ghz_text(mhz: nat) -> Seq<char> {
    let h = (mhz + 5) / 10;
    decimal(h / 100) + seq!['.', digit_char((h % 100) / 10), digit_char(h % 10)]
}

/// The color code for a temperature in tenths, as `temp_color` picks it.
pub open spec fn temp_color_text(t: int) -> Seq<char> {
    if t < 600 { "\x1b[32m"@ } else if t < 750 { "\x1b[1;33m"@ } else if t < 850 { "\x1b[38;5;208m"@ } else { "\x1b[31m"@ }
}

/// A temperature cell: colored whole degrees, or the "not available" label.
pub open spec fn temp_cell(lang: Language, temp: Option<i64>) -> Seq<char> {
    match temp {
        Some(t) => temp_color_text(t as int) + signed_decimal(whole_degrees(t as int)) + "°C"@ + "\x1b[0m"@,
        None => pick(lang, "N/A"@, "N/A"@),
    }
}

pub open spec fn header_line(elapsed: nat, total: nat) -> Seq<char> {
    "["@ + decimal(progress_pct(elapsed, total)) + "% | "@ + decimal(elapsed) + "/"@ + decimal(total) + "s]"@
}

pub open spec fn cpu_line(lang: Language, cpu: CpuMetrics) -> Seq<char> {
    pick(lang, "CPU"@, "CPU"@) + ":  "@ + decimal(cpu.load_pct as nat) + "% "@ + pick(lang, "tải"@, "load"@) + " | "@
        + temp_cell(lang, cpu.temp_c) + " | "@ + ghz_text(cpu.freq_mhz as nat) + "GHz"@
}

pub open spec fn gpu_line(lang: Language, load: nat, temp: Option<i64>) -> Seq<char> {
    pick(lang, "GPU"@, "GPU"@) + ":  "@ + decimal(load) + "% "@ + pick(lang, "tải"@, "load"@) + "  | "@ + temp_cell(lang, temp)
}

pub open spec fn ram_line(lang: Language, load: nat, errors: nat) -> Seq<char> {
    pick(lang, "RAM"@, "RAM"@) + ":  "@ + decimal(load) + "% "@ + pick(lang, "tải"@, "load"@) + "  | "@ + decimal(errors) + " "@
        + pick(lang, "lỗi"@, "errors"@)
}

pub open spec fn disk_line(lang: Language, load: nat, write: nat, read: nat) -> Seq<char> {
    pick(lang, "Ổ cứng"@, "Disk"@) + ": "@ + decimal(load) + "% "@ + pick(lang, "tải"@, "load"@) + "  | "@ + thousandths_text(write) + " "@
        + pick(lang, "MB/s"@, "MB/s"@) + "/"@ + pick(lang, "ghi"@, "write"@) + " | "@ + thousandths_text(read) + " "@
        + pick(lang, "MB/s"@, "MB/s"@) + "/"@ + pick(lang, "đọc"@, "read"@)
}

/// Renders a whole number with its sign.
fn signed_string(v: i64) -> (r: String)
    ensures
        r@ == signed_decimal(v as int),
{
    if v < 0 {
        let a: u64 = ((0i64 - (v + 1)) as u64) + 1;
        let mut s = String::from_str("-");
        let d = decimal_string(a);
        s.append(d.as_str());
        proof { reveal_strlit("-"); }
        assert(s@ =~= signed_decimal(v as int));
        s
    } else {
        decimal_string(v as u64)
    }
}

fn temp_cell_string(text: &Text, temp: Option<i64>) -> (r: String)
    ensures
        r@ == temp_cell(text.lang, temp),
{
    match temp {
        Some(t) => {
            let mut s = String::from_str(crate::fmt::temp_color(t));
            let whole: i64 = if t >= 0 {
                t / 10
            } else {
                let a: u64 = ((0i64 - (t + 1)) as u64) + 1;
                0i64 - ((a / 10) as i64)
            };
            assert(whole as int == whole_degrees(t as int));
            let w = signed_string(whole);
            s.append(w.as_str());
            s.append("°C");
            s.append("\x1b[0m");
            s
        },
        None => String::from_str(text.torture_na()),
    }
}

fn ghz_string(mhz: u64) -> (r: String)
    ensures
        r@ == ghz_text(mhz as nat),
{
    let h: u64 = mhz / 10 + if mhz % 10 >= 5 { 1 } else { 0 };
    assert(h as nat == (mhz as nat + 5) / 10) by (nonlinear_arith)
        requires h == mhz / 10 + if mhz % 10 >= 5 { 1int } else { 0int };
    let mut s = decimal_string(h / 100);
    s.append(".");
    s.append(crate::numfmt::digit_str_pub((h % 100) / 10));
    s.append(crate::numfmt::digit_str_pub(h % 10));
    proof { reveal_strlit("."); }
    assert(s@ =~= ghz_text(mhz as nat));
    s
}

/// Builds the five dashboard lines: progress, then the CPU, GPU, RAM and
/// disk lanes.
pub fn dashboard_lines(
    elapsed_secs: u64,
    total_secs: u64,
    cpu: &CpuMetrics,
    ram: &RamMetrics,
    disk: &DiskMetrics,
    gpu: &GpuMetrics,
    text: &Text,
) -> (r: Vec<String>)
    ensures
        r@.map_values(|s: String| s@) == seq![
            header_line(elapsed_secs as nat, total_secs as nat),
            cpu_line(text.lang, *cpu),
            gpu_line(text.lang, gpu.load_pct as nat, gpu.temp_c),
            ram_line(text.lang, ram.load_pct as nat, ram.errors as nat),
            disk_line(text.lang, disk.load_pct as nat, disk.write_speed_mb_s as nat, disk.read_speed_mb_s as nat),
        ],
{
    let pct: u64 = if total_secs == 0 {
        100
    } else {
        let p = (elapsed_secs as u128) * 100 / (total_secs as u128);
        if p > 100 { 100 } else { p as u64 }
    };
    let mut l1 = String::from_str("[");
    l1.append(decimal_string(pct).as_str());
    l1.append("% | ");
    l1.append(decimal_string(elapsed_secs).as_str());
    l1.append("/");
    l1.append(decimal_string(total_secs).as_str());
    l1.append("s]");

    let mut l2 = String::from_str(text.torture_cpu());
    l2.append(":  ");
    l2.append(decimal_string(cpu.load_pct).as_str());
    l2.append("% ");
    l2.append(text.torture_load());
    l2.append(" | ");
    l2.append(temp_cell_string(text, cpu.temp_c).as_str());
    l2.append(" | ");
    l2.append(ghz_string(cpu.freq_mhz).as_str());
    l2.append("GHz");

    let mut l3 = String::from_str(text.torture_gpu());
    l3.append(":  ");
    l3.append(decimal_string(gpu.load_pct).as_str());
    l3.append("% ");
    l3.append(text.torture_load());
    l3.append("  | ");
    l3.append(temp_cell_string(text, gpu.temp_c).as_str());

    let mut l4 = String::from_str(text.torture_ram());
    l4.append(":  ");
    l4.append(decimal_string(ram.load_pct).as_str());
    l4.append("% ");
    l4.append(text.torture_load());
    l4.append("  | ");
    l4.append(decimal_string(ram.errors).as_str());
    l4.append(" ");
    l4.append(text.torture_errors());

    let mut l5 = String::from_str(text.torture_disk());
    l5.append(": ");
    l5.append(decimal_string(disk.load_pct).as_str());
    l5.append("% ");
    l5.append(text.torture_load());
    l5.append("  | ");
    l5.append(thousandths_string(disk.write_speed_mb_s).as_str());
    l5.append(" ");
    l5.append(text.torture_mb_s());
    l5.append("/");
    l5.append(text.torture_write());
    l5.append(" | ");
    l5.append(thousandths_string(disk.read_speed_mb_s).as_str());
    l5.append(" ");
    l5.append(text.torture_mb_s());
    l5.append("/");
    l5.append(text.torture_read());

    let mut lines: Vec<String> = Vec::new();
    lines.push(l1);
    lines.push(l2);
    lines.push(l3);
    lines.push(l4);
    lines.push(l5);
    assert(lines@.map_values(|s: String| s@) =~= seq![
        header_line(elapsed_secs as nat, total_secs as nat),
        cpu_line(text.lang, *cpu),
        gpu_line(text.lang, gpu.load_pct as nat, gpu.temp_c),
        ram_line(text.lang, ram.load_pct as nat, ram.errors as nat),
        disk_line(text.lang, disk.load_pct as nat, disk.write_speed_mb_s as nat, disk.read_speed_mb_s as nat),
    ]);
    lines
}

/// The rule above and below the summary's title and its verdict line.
pub open spec fn rule_line() -> Seq<char> {
    "============================================================"@
}

/// A lane's status line, when it has a status: a check mark when healthy,
/// a cross otherwise.
pub open spec fn status_lines(healthy: bool, status: Option<String>) -> Seq<Seq<char>> {
    match status {
        Some(m) => seq![(if healthy { "   ✅ "@ } else { "   ❌ "@ }) + m@],
        None => Seq::empty(),
    }
}

/// A temperature in tenths, zero when absent.
pub open spec fn temp_or_zero(t: Option<i64>) -> int {
    match t { Some(v) => v as int, None => 0 }
}

pub open spec fn summary_head(lang: Language, duration: nat) -> Seq<Seq<char>> {
    seq![rule_line(), "📊 "@ + pick(lang, "TÓM TẮT BÀI TEST TỔNG"@, "TORTURE TEST SUMMARY"@) + " - v0.3.0"@, rule_line(), Seq::empty(),
        pick(lang, "Thời gian chạy"@, "Duration"@) + ": "@ + decimal(duration) + "s"@, Seq::empty()]
}

pub open spec fn cpu_section(lang: Language, cpu: CpuPartialResult) -> Seq<Seq<char>> {
    seq!["🧠 "@ + pick(lang, "cpu"@, "cpu"@),
        "   "@ + pick(lang, "phép tính"@, "operations"@) + " "@ + decimal(cpu.operations as nat) + " | "@ + pick(lang, "nhiệt độ"@, "temperature"@) + " "@
            + tenths_text(temp_or_zero(cpu.temp_c)) + "°C | "@ + pick(lang, "xung nhịp"@, "frequency"@) + " "@ + ghz_text(cpu.freq_mhz as nat) + " GHz"@]
    + status_lines(cpu.healthy, cpu.status)
}

pub open spec fn ram_section(lang: Language, ram: RamPartialResult) -> Seq<Seq<char>> {
    seq![Seq::empty(), "💾 "@ + pick(lang, "ram"@, "ram"@),
        "   "@ + pick(lang, "đã test"@, "tested"@) + " "@ + tenths_text(ram.tested_gb as int) + " GB | "@ + pick(lang, "lỗi phát hiện"@, "errors detected"@) + " "@
            + decimal(ram.errors as nat)]
    + status_lines(ram.healthy, ram.status)
}

pub open spec fn disk_section(lang: Language, disk: DiskPartialResult) -> Seq<Seq<char>> {
    seq![Seq::empty(), "💿 "@ + pick(lang, "Ứ CỨNG"@, "DISK"@),
        "   "@ + pick(lang, "tốc độ ghi"@, "write speed"@) + " "@ + thousandths_text(disk.write_speed_mb_s as nat) + " MB/s | "@ + pick(lang, "tốc độ đọc"@, "read speed"@) + " "@
            + thousandths_text(disk.read_speed_mb_s as nat) + " MB/s"@]
    + status_lines(disk.healthy, disk.status)
}

pub open spec fn gpu_section(lang: Language, gpu: GpuPartialResult) -> Seq<Seq<char>> {
    seq![Seq::empty(), "🎮 "@ + pick(lang, "gpu"@, "gpu"@)]
    + (match gpu.temp_c {
        Some(t) => seq!["   "@ + pick(lang, "nhiệt độ"@, "temperature"@) + " "@ + tenths_text(t as int) + "°C"@],
        None => Seq::empty(),
    })
    + status_lines(gpu.healthy, gpu.status)
}

pub open spec fn summary_tail(lang: Language, all_healthy: bool) -> Seq<Seq<char>> {
    seq![Seq::empty(), rule_line(),
        if all_healthy { "✅ "@ + pick(lang, "HỆ THỐNG ĐÃ VƯỢT QUA BÀI TEST TỔNG! Máy ổn định."@, "SYSTEM SURVIVED THE TORTURE TEST! Hardware is stable."@) } else { "❌ "@ + pick(lang, "HỆ THỐNG CÓ VẤN ĐỀ. Xem chi tiết bên trên."@, "SYSTEM HAS ISSUES. See details above."@) },
        rule_line()]
}

/// The lines of the final torture summary: title and duration, a section
/// per lane, and the overall outcome, which passes only when all four
/// lanes are healthy.
pub open spec fn summary_text(
    lang: Language,
    duration: nat,
    cpu: CpuPartialResult,
    ram: RamPartialResult,
    disk: DiskPartialResult,
    gpu: GpuPartialResult,
) -> Seq<Seq<char>> {
    summary_head(lang, duration) + cpu_section(lang, cpu) + ram_section(lang, ram) + disk_section(lang, disk)
        + gpu_section(lang, gpu) + summary_tail(lang, cpu.healthy && ram.healthy && disk.healthy && gpu.healthy)
}

fn push_status(lines: &mut Vec<String>, healthy: bool, status: &Option<String>)
    ensures
        final(lines)@.map_values(|s: String| s@) == old(lines)@.map_values(|s: String| s@) + status_lines(healthy, *status),
{
    match status {
        Some(m) => {
            let mut s = String::from_str(if healthy { "   ✅ " } else { "   ❌ " });
            s.append(m.as_str());
            lines.push(s);
        },
        None => {},
    }
    assert(lines@.map_values(|s: String| s@) =~= old(lines)@.map_values(|s: String| s@) + status_lines(healthy, *status));
}

fn push_line(lines: &mut Vec<String>, line: String)
    ensures
        final(lines)@.map_values(|s: String| s@) == old(lines)@.map_values(|s: String| s@).push(line@),
{
    lines.push(line);
    assert(lines@.map_values(|s: String| s@) =~= old(lines)@.map_values(|s: String| s@).push(line@));
}

fn push_head(lines: &mut Vec<String>, text: &Text, duration: u64)
    ensures
        final(lines)@.map_values(|s: String| s@) == old(lines)@.map_values(|s: String| s@) + summary_head(text.lang, duration as nat),
{
    push_line(lines, String::from_str("============================================================"));
    let mut s = String::from_str("📊 ");
    s.append(text.torture_summary());
    s.append(" - v0.3.0");
    push_line(lines, s);
    push_line(lines, String::from_str("============================================================"));
    push_line(lines, String::new());
    let mut s = String::from_str(text.torture_duration());
    s.append(": ");
    s.append(decimal_string(duration).as_str());
    s.append("s");
    push_line(lines, s);
    push_line(lines, String::new());
    assert(lines@.map_values(|s: String| s@) =~= old(lines)@.map_values(|s: String| s@) + summary_head(text.lang, duration as nat));
}

fn push_cpu(lines: &mut Vec<String>, text: &Text, cpu: &CpuPartialResult)
    ensures
        final(lines)@.map_values(|s: String| s@) == old(lines)@.map_values(|s: String| s@) + cpu_section(text.lang, *cpu),
{
    let mut s = String::from_str("🧠 ");
    s.append(text.cpu());
    push_line(lines, s);
    let mut s = String::from_str("   ");
    s.append(text.operations());
    s.append(" ");
    s.append(decimal_string(cpu.operations).as_str());
    s.append(" | ");
    s.append(text.temperature());
    s.append(" ");
    let t = match cpu.temp_c { Some(v) => v, None => 0 };
    s.append(tenths_string(t).as_str());
    s.append("°C | ");
    s.append(text.frequency());
    s.append(" ");
    s.append(ghz_string(cpu.freq_mhz).as_str());
    s.append(" GHz");
    push_line(lines, s);
    push_status(lines, cpu.healthy, &cpu.status);
    assert(lines@.map_values(|s: String| s@) =~= old(lines)@.map_values(|s: String| s@) + cpu_section(text.lang, *cpu));
}

fn push_ram(lines: &mut Vec<String>, text: &Text, ram: &RamPartialResult)
    ensures
        final(lines)@.map_values(|s: String| s@) == old(lines)@.map_values(|s: String| s@) + ram_section(text.lang, *ram),
{
    push_line(lines, String::new());
    let mut s = String::from_str("💾 ");
    s.append(text.ram());
    push_line(lines, s);
    let mut s = String::from_str("   ");
    s.append(text.tested_gb());
    s.append(" ");
    s.append(crate::numfmt::tenths_string_u64(ram.tested_gb).as_str());
    s.append(" GB | ");
    s.append(text.errors_detected());
    s.append(" ");
    s.append(decimal_string(ram.errors).as_str());
    push_line(lines, s);
    push_status(lines, ram.healthy, &ram.status);
    assert(lines@.map_values(|s: String| s@) =~= old(lines)@.map_values(|s: String| s@) + ram_section(text.lang, *ram));
}

fn push_disk(lines: &mut Vec<String>, text: &Text, disk: &DiskPartialResult)
    ensures
        final(lines)@.map_values(|s: String| s@) == old(lines)@.map_values(|s: String| s@) + disk_section(text.lang, *disk),
{
    push_line(lines, String::new());
    let mut s = String::from_str("💿 ");
    s.append(text.disk());
    push_line(lines, s);
    let mut s = String::from_str("   ");
    s.append(text.write_speed());
    s.append(" ");
    s.append(thousandths_string(disk.write_speed_mb_s).as_str());
    s.append(" MB/s | ");
    s.append(text.read_speed());
    s.append(" ");
    s.append(thousandths_string(disk.read_speed_mb_s).as_str());
    s.append(" MB/s");
    push_line(lines, s);
    push_status(lines, disk.healthy, &disk.status);
    assert(lines@.map_values(|s: String| s@) =~= old(lines)@.map_values(|s: String| s@) + disk_section(text.lang, *disk));
}

fn push_gpu(lines: &mut Vec<String>, text: &Text, gpu: &GpuPartialResult)
    ensures
        final(lines)@.map_values(|s: String| s@) == old(lines)@.map_values(|s: String| s@) + gpu_section(text.lang, *gpu),
{
    push_line(lines, String::new());
    let mut s = String::from_str("🎮 ");
    s.append(text.gpu());
    push_line(lines, s);
    match gpu.temp_c {
        Some(t) => {
            let mut s = String::from_str("   ");
            s.append(text.temperature());
            s.append(" ");
            s.append(tenths_string(t).as_str());
            s.append("°C");
            push_line(lines, s);
        },
        None => {},
    }
    push_status(lines, gpu.healthy, &gpu.status);
    assert(lines@.map_values(|s: String| s@) =~= old(lines)@.map_values(|s: String| s@) + gpu_section(text.lang, *gpu));
}

fn push_tail(lines: &mut Vec<String>, text: &Text, all_healthy: bool)
    ensures
        final(lines)@.map_values(|s: String| s@) == old(lines)@.map_values(|s: String| s@) + summary_tail(text.lang, all_healthy),
{
    push_line(lines, String::new());
    push_line(lines, String::from_str("============================================================"));
    let mut s = if all_healthy { String::from_str("✅ ") } else { String::from_str("❌ ") };
    s.append(if all_healthy { text.torture_passed() } else { text.torture_failed() });
    push_line(lines, s);
    push_line(lines, String::from_str("============================================================"));
    assert(lines@.map_values(|s: String| s@) =~= old(lines)@.map_values(|s: String| s@) + summary_tail(text.lang, all_healthy));
}

/// Builds the final torture summary from the four lane reports.
pub fn summary_lines(
    duration: u64,
    cpu: &CpuPartialResult,
    ram: &RamPartialResult,
    disk: &DiskPartialResult,
    gpu: &GpuPartialResult,
    text: &Text,
) -> (r: Vec<String>)
    ensures
        r@.map_values(|s: String| s@) == summary_text(text.lang, duration as nat, *cpu, *ram, *disk, *gpu),
{
    let mut lines: Vec<String> = Vec::new();
    assert(lines@.map_values(|s: String| s@) =~= Seq::<Seq<char>>::empty());
    push_head(&mut lines, text, duration);
    push_cpu(&mut lines, text, cpu);
    push_ram(&mut lines, text, ram);
    push_disk(&mut lines, text, disk);
    push_gpu(&mut lines, text, gpu);
    push_tail(&mut lines, text, cpu.healthy && ram.healthy && disk.healthy && gpu.healthy);
    assert(lines@.map_values(|s: String| s@) =~= summary_text(text.lang, duration as nat, *cpu, *ram, *disk, *gpu));
    lines
}

} // verus!

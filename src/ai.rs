//! The technician persona: short commentary lines around the tests.
use vstd::prelude::*;
use crate::lang::{Language, Text, pick};
use crate::numfmt::{decimal, decimal_string, tenths_string_u64, tenths_text};
use crate::health::join3;

verus! {

/// The commentary voice; when disabled it says nothing and never pauses.
#[derive(Clone, Copy, Debug)]
pub struct AiTechnician {
    pub enabled: bool,
    /// Pause between typed characters, in milliseconds.
    pub typewriter_delay_ms: u64,
}

/// `prefix` followed by `body`, when the voice is enabled.
pub open spec fn line_if(enabled: bool, prefix: Seq<char>, body: Seq<char>) -> Option<Seq<char>> {
    if enabled { Some(prefix + body) } else { None }
}

/// The string view of an optional line.
pub open spec fn opt_view(o: Option<String>) -> Option<Seq<char>> {
    match o { Some(s) => Some(s@), None => None }
}

fn line(enabled: bool, prefix: &str, body: &str) -> (r: Option<String>)
    ensures
        opt_view(r) == line_if(enabled, prefix@, body@),
{
    if enabled {
        let mut s = String::from_str(prefix);
        s.append(body);
        Some(s)
    } else {
        None
    }
}

impl AiTechnician {
    /// An enabled voice typing a character every 10 ms.
    pub fn new(_lang: Language) -> (r: AiTechnician)
        ensures
            r.enabled,
            r.typewriter_delay_ms == 10,
    {
        AiTechnician { enabled: true, typewriter_delay_ms: 10 }
    }

    /// How long to pause for a requested "thinking" delay.
    pub fn think_ms(&self, duration_ms: u64) -> (r: u64)
        ensures
            r == if self.enabled { duration_ms } else { 0 },
    {
        if self.enabled { duration_ms } else { 0 }
    }

    /// The greeting line.
    pub fn greet(&self, text: &Text) -> (r: Option<String>)
        ensures
            opt_view(r) == line_if(self.enabled, "👨‍💻 AI: "@, pick(text.lang, "Xin chào! Để tôi khám sức khỏe cho chiếc máy này nhé."@, "Hello! Let me check the health of this machine."@)),
    {
        line(self.enabled, "👨‍💻 AI: ", text.ai_greet())
    }

    /// The line before hardware detection.
    pub fn intro_detect(&self, text: &Text) -> (r: Option<String>)
        ensures
            opt_view(r) == line_if(self.enabled, "🔍 AI: "@, pick(text.lang, "Đang ngó qua cấu hình phần cứng một chút..."@, "Taking a quick look at the hardware configuration..."@)),
    {
        line(self.enabled, "🔍 AI: ", text.ai_detecting())
    }

    /// The reaction to the detected specifications.
    pub fn react_specs(&self, text: &Text, is_good: bool) -> (r: Option<String>)
        ensures
            opt_view(r) == line_if(self.enabled, "   -> "@, if is_good { pick(text.lang, "Chà, máy ngon đấy! Cấu hình này dư sức làm việc nặng."@, "Wow, nice machine! This config can handle heavy workloads."@) } else { pick(text.lang, "Cấu hình ổn định, đủ dùng cho công việc hàng ngày."@, "Decent configuration, good enough for daily tasks."@) }),
    {
        let reaction = if is_good { text.ai_specs_good() } else { text.ai_specs_ok() };
        line(self.enabled, "   -> ", reaction)
    }

    /// A comment made while a test runs.
    pub fn comment_realtime(&self, text: &str) -> (r: Option<String>)
        ensures
            opt_view(r) == line_if(self.enabled, "💬 AI: "@, text@),
    {
        line(self.enabled, "💬 AI: ", text)
    }

    /// The reaction to a test's outcome: passed, passed with warnings, or
    /// failed.
    pub fn react_result(&self, text: &Text, is_pass: bool, has_warning: bool) -> (r: Option<String>)
        ensures
            opt_view(r) == line_if(self.enabled, "💬 AI: "@, if is_pass {
                pick(text.lang, "Hoàn thành tốt. Không phát hiện vấn đề."@, "Test passed. No issues detected."@)
            } else if has_warning {
                pick(text.lang, "Hoàn thành nhưng có cảnh báo. Nên kiểm tra lại."@, "Test completed with warnings. Recommend review."@)
            } else {
                pick(text.lang, "Thất bại. Cần kiểm tra ngay."@, "Test failed. Immediate attention needed."@)
            }),
    {
        let message = if is_pass { text.ai_pass() } else if has_warning { text.ai_warning() } else { text.ai_fail() };
        line(self.enabled, "💬 AI: ", message)
    }
}

/// Whole degrees of a non-negative temperature in tenths, halves up.
pub open spec fn rounded_degrees(t: nat) -> nat {
    (t + 5) / 10
}

/// The live comment on the CPU temperature: at the start and every tenth
/// second, above 80 °C it runs hot, above 60 °C it warms up; otherwise, or
/// between those seconds, nothing.
pub open spec fn cpu_temp_comment_spec(elapsed_secs: nat, temp: Option<i64>) -> Option<Seq<char>> {
    if elapsed_secs % 10 != 0 {
        None
    } else {
        match temp {
            Some(t) => if t > 800 {
                Some("CPU temperature at "@ + decimal(rounded_degrees(t as nat)) + "°C - running hot"@)
            } else if t > 600 {
                Some("CPU temperature at "@ + decimal(rounded_degrees(t as nat)) + "°C - warming up nicely"@)
            } else {
                None
            },
            None => None,
        }
    }
}

/// The live comment for a CPU temperature reading, in tenths of a degree,
/// taken `elapsed_secs` into the test.
pub fn cpu_temp_comment(elapsed_secs: u64, temp: Option<i64>) -> (r: Option<String>)
    ensures
        opt_view(r) == cpu_temp_comment_spec(elapsed_secs as nat, temp),
{
    if elapsed_secs % 10 != 0 {
        return None;
    }
    match temp {
        Some(t) => {
            if t > 800 {
                let d = decimal_string(((t as u64) + 5) / 10);
                Some(join3("CPU temperature at ", d.as_str(), "°C - running hot"))
            } else if t > 600 {
                let d = decimal_string(((t as u64) + 5) / 10);
                Some(join3("CPU temperature at ", d.as_str(), "°C - warming up nicely"))
            } else {
                None
            }
        },
        None => None,
    }
}

/// The live comment on a disk's read speed, in tenths of a MB/s: an SSD
/// is excellent above 500 MB/s, good above 200, below average otherwise;
/// an HDD is excellent above 100, good above 50, and otherwise plainly
/// reported.
pub open spec fn disk_speed_comment_spec(name: Seq<char>, is_ssd: bool, read: nat) -> Seq<char> {
    let speed = tenths_text(read as int);
    if is_ssd {
        name + " SSD read speed: "@ + speed + if read > 5000 {
            " MB/s - excellent"@
        } else if read > 2000 {
            " MB/s - good"@
        } else {
            " MB/s - below average"@
        }
    } else {
        name + " HDD read speed: "@ + speed + if read > 1000 {
            " MB/s - excellent"@
        } else if read > 500 {
            " MB/s - good"@
        } else {
            " MB/s"@
        }
    }
}

/// The live comment on a disk's read speed.
pub fn disk_speed_comment(name: &str, is_ssd: bool, read: u64) -> (r: String)
    ensures
        r@ == disk_speed_comment_spec(name@, is_ssd, read as nat),
{
    let speed = tenths_string_u64(read);
    let mut s = String::from_str(name);
    let tail = if is_ssd {
        s.append(" SSD read speed: ");
        if read > 5000 { " MB/s - excellent" } else if read > 2000 { " MB/s - good" } else { " MB/s - below average" }
    } else {
        s.append(" HDD read speed: ");
        if read > 1000 { " MB/s - excellent" } else if read > 500 { " MB/s - good" } else { " MB/s" }
    };
    s.append(speed.as_str());
    s.append(tail);
    s
}

} // verus!

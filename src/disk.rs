//! Disk stress: the written byte pattern, its read-back check, and the disk
//! outcome.
//!
//! Speeds are in tenths of a megabyte per second and seek times in tenths
//! of a millisecond.
use vstd::prelude::*;
use crate::health::{HealthStatus, HealthView, join3};
use crate::numfmt::{decimal, decimal_string, tenths_string_u64, tenths_text};

verus! {

/// The byte written all over the test file.
pub const DISK_PATTERN: u8 = 0xA5;
/// Size of a sector-equivalent unit, in bytes.
pub const SECTOR_BYTES: u64 = 4096;
/// Size of one write or read chunk, in bytes.
pub const DISK_CHUNK_BYTES: usize = 1024 * 1024;

/// Settings of a standalone disk test.
pub struct DiskTestConfig {
    /// Where to put the test file; the system's temporary directory when
    /// absent.
    pub test_path: Option<String>,
    pub test_size_mb: u64,
    pub include_seek_test: bool,
    pub verbose: bool,
}

impl Default for DiskTestConfig {
    /// A 100 MB test with the seek test, quiet.
    fn default() -> (r: DiskTestConfig)
        ensures
            r.test_path is None,
            r.test_size_mb == 100,
            r.include_seek_test,
            !r.verbose,
    {
        DiskTestConfig { test_path: None, test_size_mb: 100, include_seek_test: true, verbose: false }
    }
}

/// Overall SMART status reported for a disk.
#[derive(Clone, Copy, Debug, PartialEq, Eq, Structural)]
pub enum SmartStatus {
    Verified,
    Failing,
    Unknown,
}

/// SMART data supplied for a disk; temperatures in tenths of a degree.
#[derive(Clone, Debug)]
pub struct SmartData {
    pub status: SmartStatus,
    pub temperature_c: Option<i64>,
    pub power_on_hours: Option<u64>,
    pub power_cycle_count: Option<u64>,
    pub model: Option<String>,
    pub serial: Option<String>,
    pub firmware: Option<String>,
    pub health_percentage: Option<u8>,
    pub realloc_sectors: Option<u64>,
    pub pending_sectors: Option<u64>,
    pub reallocated_events: Option<u64>,
    pub ssd_life_left: Option<u8>,
    pub total_lbas_written: Option<u64>,
    pub total_lbas_read: Option<u64>,
    pub media_errors: Option<u64>,
    pub command_timeout: Option<u64>,
}

impl Default for SmartData {
    /// Unknown status and no attribute.
    fn default() -> (r: SmartData)
        ensures
            r.status == SmartStatus::Unknown,
            r.temperature_c is None,
            r.power_on_hours is None,
            r.model is None,
            r.realloc_sectors is None,
    {
        SmartData {
            status: SmartStatus::Unknown,
            temperature_c: None,
            power_on_hours: None,
            power_cycle_count: None,
            model: None,
            serial: None,
            firmware: None,
            health_percentage: None,
            realloc_sectors: None,
            pending_sectors: None,
            reallocated_events: None,
            ssd_life_left: None,
            total_lbas_written: None,
            total_lbas_read: None,
            media_errors: None,
            command_timeout: None,
        }
    }
}

/// Number of bytes of `s` that differ from `pattern`.
pub open spec fn byte_mismatches(s: Seq<u8>, pattern: u8) -> nat
    decreases s.len(),
{
    if s.len() == 0 {
        0
    } else {
        byte_mismatches(s.drop_last(), pattern) + if s.last() != pattern { 1nat } else { 0nat }
    }
}

/// Counts the bytes of `buf` that differ from `pattern`.
pub fn count_bad_bytes(buf: &[u8], pattern: u8) -> (r: u64)
    ensures
        r == byte_mismatches(buf@, pattern),
{
    let mut i: usize = 0;
    let mut bad: u64 = 0;
    while i < buf.len()
        invariant
            i <= buf@.len(),
            bad == byte_mismatches(buf@.subrange(0, i as int), pattern),
            bad <= i,
        decreases buf@.len() - i,
    {
        proof {
            assert(buf@.subrange(0, i + 1).drop_last() =~= buf@.subrange(0, i as int));
        }
        if buf[i] != pattern {
            bad = bad + 1;
        }
        i = i + 1;
    }
    assert(buf@.subrange(0, buf@.len() as int) =~= buf@);
    bad
}

/// Mismatched bytes coalesced into sector-equivalent units: the number of
/// 4 KB units they would fill, rounded up, so one bad byte is one bad
/// sector.
pub open spec fn sectors_for(bad_bytes: nat) -> nat {
    (bad_bytes + (SECTOR_BYTES - 1) as nat) / (SECTOR_BYTES as nat)
}

/// Converts a count of mismatched bytes to sector-equivalent units.
pub fn bad_sectors_from_bytes(bad_bytes: u64) -> (r: u64)
    ensures
        r == sectors_for(bad_bytes as nat),
        r > 0 <==> bad_bytes > 0,
{
    let r = bad_bytes / SECTOR_BYTES + if bad_bytes % SECTOR_BYTES != 0 { 1 } else { 0 };
    assert(r == sectors_for(bad_bytes as nat)) by (nonlinear_arith)
        requires
            r == bad_bytes / 4096 + if bad_bytes % 4096 != 0 { 1int } else { 0int },
            SECTOR_BYTES == 4096;
    r
}

/// Minimum read speed, minimum write speed and maximum seek time for the
/// kind of media: SSD or HDD.
pub open spec fn disk_limits(is_ssd: bool) -> (int, int, int) {
    if is_ssd { (500, 300, 50) } else { (100, 100, 200) }
}

pub open spec fn disk_sector_reason(n: nat) -> Seq<char> {
    "Bad sectors detected ("@ + decimal(n) + " sectors) - disk failure imminent"@
}

pub open spec fn disk_read_reason(r: int) -> Seq<char> {
    "Extremely slow read speed ("@ + tenths_text(r) + " MB/s) - dying disk"@
}

pub open spec fn disk_write_reason(w: int) -> Seq<char> {
    "Extremely slow write speed ("@ + tenths_text(w) + " MB/s) - dying disk"@
}

pub open spec fn disk_seek_issue(s: int) -> Seq<char> {
    "Slow seek time ("@ + tenths_text(s) + "ms) - possible mechanical issue"@
}

pub open spec fn disk_below_average_issue(is_ssd: bool, r: int) -> Seq<char> {
    if is_ssd {
        "SSD read speed below average ("@ + tenths_text(r) + " MB/s)"@
    } else {
        "HDD read speed below average ("@ + tenths_text(r) + " MB/s)"@
    }
}

/// The disk outcome: any bad sector fails, whatever the speeds; then a read
/// or write speed under the media's critical floor fails (SSD 50.0 / 30.0
/// MB/s, HDD 10.0 / 10.0 MB/s); a measured seek time above the media's
/// limit (5.0 / 20.0 ms) and a read speed under the media's average floor
/// (100.0 / 50.0 MB/s) are issues.
pub open spec fn disk_health(write: int, read: int, seek: int, bad_sectors: nat, is_ssd: bool) -> HealthView {
    let (min_read, min_write, max_seek) = disk_limits(is_ssd);
    if bad_sectors > 0 {
        HealthView::Failed(disk_sector_reason(bad_sectors))
    } else if read < min_read {
        HealthView::Failed(disk_read_reason(read))
    } else if write < min_write {
        HealthView::Failed(disk_write_reason(write))
    } else {
        let slow_seek: Seq<Seq<char>> = if seek > 0 && seek > max_seek { seq![disk_seek_issue(seek)] } else { Seq::empty() };
        let below: Seq<Seq<char>> = if (is_ssd && read < 1000) || (!is_ssd && read < 500) {
            seq![disk_below_average_issue(is_ssd, read)]
        } else {
            Seq::empty()
        };
        crate::health::from_issues(slow_seek + below)
    }
}

/// Evaluates disk health from the write and read speeds, the seek time
/// (zero when not measured), the bad sector count and the media kind.
pub fn evaluate_disk_health(write: u64, read: u64, seek: u64, bad_sectors: u64, is_ssd: bool) -> (r: HealthStatus)
    ensures
        r@ == disk_health(write as int, read as int, seek as int, bad_sectors as nat, is_ssd),
{
    if bad_sectors > 0 {
        let n = decimal_string(bad_sectors);
        return HealthStatus::Failed(join3("Bad sectors detected (", n.as_str(), " sectors) - disk failure imminent"));
    }
    let (min_read, min_write, max_seek): (u64, u64, u64) = if is_ssd { (500, 300, 50) } else { (100, 100, 200) };
    if read < min_read {
        let v = tenths_string_u64(read);
        return HealthStatus::Failed(join3("Extremely slow read speed (", v.as_str(), " MB/s) - dying disk"));
    }
    if write < min_write {
        let v = tenths_string_u64(write);
        return HealthStatus::Failed(join3("Extremely slow write speed (", v.as_str(), " MB/s) - dying disk"));
    }
    let ghost slow_seek: Seq<Seq<char>> = if seek > 0 && seek > max_seek { seq![disk_seek_issue(seek as int)] } else { Seq::empty() };
    let ghost below: Seq<Seq<char>> = if (is_ssd && read < 1000) || (!is_ssd && read < 500) {
        seq![disk_below_average_issue(is_ssd, read as int)]
    } else {
        Seq::empty()
    };
    let mut issues: Vec<String> = Vec::new();
    if seek > 0 && seek > max_seek {
        let v = tenths_string_u64(seek);
        issues.push(join3("Slow seek time (", v.as_str(), "ms) - possible mechanical issue"));
    }
    assert(issues@.map_values(|s: String| s@) =~= slow_seek);
    if is_ssd && read < 1000 {
        let v = tenths_string_u64(read);
        issues.push(join3("SSD read speed below average (", v.as_str(), " MB/s)"));
    } else if !is_ssd && read < 500 {
        let v = tenths_string_u64(read);
        issues.push(join3("HDD read speed below average (", v.as_str(), " MB/s)"));
    }
    assert(issues@.map_values(|s: String| s@) =~= slow_seek + below);
    HealthStatus::from_issue_list(issues)
}

pub open spec fn smart_failing_reason() -> Seq<char> {
    "SMART status: Failing - disk reports imminent failure"@
}

/// Merges a SMART status into a disk outcome: only an explicit `Failing`
/// status changes it, to a failure, and an existing failure is kept.
pub open spec fn with_smart(v: HealthView, status: Option<SmartStatus>) -> HealthView {
    if status == Some(SmartStatus::Failing) && !(v is Failed) { HealthView::Failed(smart_failing_reason()) } else { v }
}

/// Applies a supplied SMART status to a disk outcome.
pub fn merge_smart_status(health: HealthStatus, smart: Option<&SmartData>) -> (r: HealthStatus)
    ensures
        r@ == with_smart(health@, match smart { Some(d) => Some(d.status), None => None }),
{
    match smart {
        Some(d) => {
            if d.status == SmartStatus::Failing && !health.is_failed() {
                HealthStatus::Failed(String::from_str("SMART status: Failing - disk reports imminent failure"))
            } else {
                health
            }
        },
        None => health,
    }
}

/// One corrupted byte in an otherwise pattern-filled read-back gives at
/// least one bad sector, and the disk outcome then fails whatever the
/// speeds.
pub proof fn lemma_disk_corruption_fails(buf: Seq<u8>, i: int, bad: u8, write: int, read: int, seek: int, is_ssd: bool)
    requires
        forall|j: int| 0 <= j < buf.len() ==> #[trigger] buf[j] == DISK_PATTERN,
        0 <= i < buf.len(),
        bad != DISK_PATTERN,
    ensures
        byte_mismatches(buf.update(i, bad), DISK_PATTERN) >= 1,
        sectors_for(byte_mismatches(buf.update(i, bad), DISK_PATTERN)) >= 1,
        disk_health(write, read, seek, sectors_for(byte_mismatches(buf.update(i, bad), DISK_PATTERN)), is_ssd) is Failed,
{
    lemma_byte_corruption_counted(buf, i, bad);
}

proof fn lemma_byte_corruption_counted(buf: Seq<u8>, i: int, bad: u8)
    requires
        forall|j: int| 0 <= j < buf.len() ==> #[trigger] buf[j] == DISK_PATTERN,
        0 <= i < buf.len(),
        bad != DISK_PATTERN,
    ensures
        byte_mismatches(buf.update(i, bad), DISK_PATTERN) >= 1,
    decreases buf.len(),
{
    let t = buf.update(i, bad);
    if i < buf.len() - 1 {
        assert(t.drop_last() =~= buf.drop_last().update(i, bad));
        lemma_byte_corruption_counted(buf.drop_last(), i, bad);
    }
}

/// Data integrity comes first: any bad sector fails the disk with the
/// bad-sector reason, whatever the speeds, seek time and media.
pub proof fn lemma_disk_integrity_dominates(write: int, read: int, seek: int, bad_sectors: nat, is_ssd: bool)
    requires
        bad_sectors > 0,
    ensures
        disk_health(write, read, seek, bad_sectors, is_ssd) == HealthView::Failed(disk_sector_reason(bad_sectors)),
{
}

/// A read-back equal to the written pattern has no mismatched byte, hence
/// no bad sector.
pub proof fn lemma_disk_round_trip(buf: Seq<u8>)
    requires
        forall|j: int| 0 <= j < buf.len() ==> #[trigger] buf[j] == DISK_PATTERN,
    ensures
        byte_mismatches(buf, DISK_PATTERN) == 0,
        sectors_for(byte_mismatches(buf, DISK_PATTERN)) == 0,
    decreases buf.len(),
{
    if buf.len() > 0 {
        lemma_disk_round_trip(buf.drop_last());
    }
}

/// Speed in tenths of a megabyte per second for `bytes` handled in `nanos`
/// nanoseconds (rounded down, at most `u64::MAX`); zero when no time was
/// measured.
pub open spec fn mb_speed_tenths(bytes: nat, nanos: nat) -> nat {
    if nanos == 0 {
        0
    } else {
        let q = bytes * 10_000_000_000 / (1_048_576 * nanos);
        if q > u64::MAX { u64::MAX as nat } else { q }
    }
}

/// Computes a disk speed in tenths of a megabyte per second.
pub fn mb_per_sec_tenths(bytes: u64, nanos: u64) -> (r: u64)
    ensures
        r == mb_speed_tenths(bytes as nat, nanos as nat),
{
    if nanos == 0 {
        0
    } else {
        assert((bytes as int) * 10_000_000_000 <= u64::MAX as int * 10_000_000_000) by (nonlinear_arith)
            requires bytes <= u64::MAX;
        assert(1_048_576 * (nanos as int) <= 1_048_576 * (u64::MAX as int)) by (nonlinear_arith)
            requires nanos <= u64::MAX;
        let num = (bytes as u128) * 10_000_000_000u128;
        let den = 1_048_576u128 * (nanos as u128);
        let q = num / den;
        if q > u64::MAX as u128 { u64::MAX } else { q as u64 }
    }
}

/// The average of the seek times, `total_nanos` over `count` seeks, in
/// tenths of a millisecond (rounded down); zero when no seek succeeded.
pub open spec fn seek_average_spec(total_nanos: nat, count: nat) -> nat {
    if count == 0 { 0 } else { total_nanos / count / 100_000 }
}

/// Averages the successful seeks' times.
pub fn seek_average_tenths_ms(total_nanos: u64, count: u64) -> (r: u64)
    ensures
        r == seek_average_spec(total_nanos as nat, count as nat),
{
    if count == 0 { 0 } else { total_nanos / count / 100_000 }
}

/// The byte offset of a random seek: a random number reduced below the last
/// whole 4 KB block of the file and aligned down to 4 KB; none when the
/// file is no longer than one block.
pub open spec fn seek_offset_spec(random: u64, file_size: u64) -> Option<u64> {
    if file_size <= 4096 {
        None
    } else {
        Some(((random % ((file_size - 4096) as u64)) as u64 & !4095u64))
    }
}

/// Picks the offset of one random seek from a random number.
pub fn seek_offset(random: u64, file_size: u64) -> (r: Option<u64>)
    ensures
        r == seek_offset_spec(random, file_size),
{
    if file_size <= 4096 {
        None
    } else {
        let max_pos = file_size - 4096;
        Some((random % max_pos) & !4095u64)
    }
}

/// The result of a standalone disk test; sizes in tenths of a gigabyte,
/// speeds in tenths of a megabyte per second, seek time in tenths of a
/// millisecond.
pub struct DiskTestResult {
    pub disk_name: String,
    pub disk_size_gb: u64,
    pub disk_used_gb: u64,
    pub disk_available_gb: u64,
    pub disk_fs: String,
    pub disk_device: Option<String>,
    pub write_speed_mb_s: u64,
    pub read_speed_mb_s: u64,
    pub seek_time_ms: u64,
    pub bad_sectors: u64,
    pub is_ssd: bool,
    pub smart: Option<SmartData>,
    pub health: HealthStatus,
}

/// What the disk measurements of a standalone run were.
pub struct DiskMeasurements {
    /// Bytes written and read back.
    pub bytes: u64,
    pub write_nanos: u64,
    pub read_nanos: u64,
    /// Average seek time in tenths of a millisecond; zero when not run.
    pub seek_time_ms: u64,
    /// Bytes read back different from the pattern.
    pub bad_bytes: u64,
    pub is_ssd: bool,
}

pub open spec fn write_failed_reason() -> Seq<char> {
    "Cannot write to disk - check permissions or disk space"@
}

pub open spec fn read_failed_reason() -> Seq<char> {
    "Read test failed - possible disk failure"@
}

/// The health of a run whose write or read phase could not complete.
pub fn disk_io_failure(write_failed: bool) -> (r: HealthStatus)
    ensures
        r@ == HealthView::Failed(if write_failed { write_failed_reason() } else { read_failed_reason() }),
{
    if write_failed {
        HealthStatus::Failed(String::from_str("Cannot write to disk - check permissions or disk space"))
    } else {
        HealthStatus::Failed(String::from_str("Read test failed - possible disk failure"))
    }
}

/// Builds the result of a completed standalone disk test from its
/// measurements, with SMART data merged in when supplied.
pub fn disk_test_result(
    disk_name: String,
    disk_size_gb: u64,
    disk_used_gb: u64,
    disk_available_gb: u64,
    disk_fs: String,
    disk_device: Option<String>,
    m: &DiskMeasurements,
    smart: Option<SmartData>,
) -> (r: DiskTestResult)
    ensures
        r.disk_name == disk_name,
        r.disk_size_gb == disk_size_gb,
        r.disk_used_gb == disk_used_gb,
        r.disk_available_gb == disk_available_gb,
        r.smart == smart,
        r.disk_fs == disk_fs,
        r.disk_device == disk_device,
        r.write_speed_mb_s == mb_speed_tenths(m.bytes as nat, m.write_nanos as nat),
        r.read_speed_mb_s == mb_speed_tenths(m.bytes as nat, m.read_nanos as nat),
        r.seek_time_ms == m.seek_time_ms,
        r.bad_sectors == sectors_for(m.bad_bytes as nat),
        r.is_ssd == m.is_ssd,
        r.health@ == with_smart(
            disk_health(r.write_speed_mb_s as int, r.read_speed_mb_s as int, m.seek_time_ms as int, r.bad_sectors as nat, m.is_ssd),
            match smart { Some(d) => Some(d.status), None => None },
        ),
{
    let write = mb_per_sec_tenths(m.bytes, m.write_nanos);
    let read = mb_per_sec_tenths(m.bytes, m.read_nanos);
    let sectors = bad_sectors_from_bytes(m.bad_bytes);
    let health = evaluate_disk_health(write, read, m.seek_time_ms, sectors, m.is_ssd);
    let health = match &smart {
        Some(d) => merge_smart_status(health, Some(d)),
        None => merge_smart_status(health, None),
    };
    DiskTestResult {
        disk_name,
        disk_size_gb,
        disk_used_gb,
        disk_available_gb,
        disk_fs,
        disk_device,
        write_speed_mb_s: write,
        read_speed_mb_s: read,
        seek_time_ms: m.seek_time_ms,
        bad_sectors: sectors,
        is_ssd: m.is_ssd,
        smart,
        health,
    }
}

} // verus!

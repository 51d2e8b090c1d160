//! RAM stress: filling memory with a fixed pattern, checking it back, and
//! the RAM outcome.
//!
//! Sizes are in tenths of a gigabyte and speeds in tenths of a gigabyte per
//! second.
use vstd::prelude::*;
use crate::health::{HealthStatus, HealthView, join3};
use crate::numfmt::{decimal, decimal_string, tenths_string_u64, tenths_text};

verus! {

/// The 64-bit word written to every cell of the tested memory.
pub const RAM_PATTERN: u64 = 0xAA55_AA55_AA55_AA55;

/// Bytes in a gigabyte (binary).
pub const GIB: u64 = 1024 * 1024 * 1024;

/// Settings of a standalone RAM test.
pub struct RamTestConfig {
    /// Amount to test, in tenths of a gigabyte; by default 80% of what is
    /// available.
    pub max_gb: Option<u64>,
}

impl Default for RamTestConfig {
    /// The default share of available memory.
    fn default() -> (r: RamTestConfig)
        ensures
            r.max_gb is None,
    {
        RamTestConfig { max_gb: None }
    }
}

/// Number of words of `s` that differ from `pattern`.
pub open spec fn mismatch_count(s: Seq<u64>, pattern: u64) -> nat
    decreases s.len(),
{
    if s.len() == 0 {
        0
    } else {
        mismatch_count(s.drop_last(), pattern) + if s.last() != pattern { 1nat } else { 0nat }
    }
}

/// Every word of `s` is `pattern`.
pub open spec fn all_equal(s: Seq<u64>, pattern: u64) -> bool {
    forall|i: int| 0 <= i < s.len() ==> #[trigger] s[i] == pattern
}

/// Writes `pattern` into `buf[start..end]`, leaving the rest as it was.
pub fn fill_pattern(buf: &mut Vec<u64>, start: usize, end: usize, pattern: u64)
    requires
        start <= end <= old(buf)@.len(),
    ensures
        final(buf)@.len() == old(buf)@.len(),
        forall|i: int| start <= i < end ==> #[trigger] final(buf)@[i] == pattern,
        forall|i: int| 0 <= i < old(buf)@.len() && !(start <= i < end) ==> #[trigger] final(buf)@[i] == old(buf)@[i],
{
    let mut i = start;
    while i < end
        invariant
            start <= i <= end <= buf@.len(),
            buf@.len() == old(buf)@.len(),
            forall|j: int| start <= j < i ==> #[trigger] buf@[j] == pattern,
            forall|j: int| 0 <= j < old(buf)@.len() && !(start <= j < i) ==> #[trigger] buf@[j] == old(buf)@[j],
        decreases end - i,
    {
        buf.set(i, pattern);
        i = i + 1;
    }
}

/// Counts the words of `buf[start..end]` that differ from `pattern`.
pub fn count_mismatches(buf: &[u64], start: usize, end: usize, pattern: u64) -> (r: u64)
    requires
        start <= end <= buf@.len(),
    ensures
        r == mismatch_count(buf@.subrange(start as int, end as int), pattern),
{
    let mut i = start;
    let mut errors: u64 = 0;
    while i < end
        invariant
            start <= i <= end <= buf@.len(),
            errors == mismatch_count(buf@.subrange(start as int, i as int), pattern),
            errors <= i - start,
        decreases end - i,
    {
        proof {
            let next = buf@.subrange(start as int, i + 1);
            assert(next.drop_last() =~= buf@.subrange(start as int, i as int));
        }
        if buf[i] != pattern {
            errors = errors + 1;
        }
        i = i + 1;
    }
    errors
}

/// A sequence all of whose words are the pattern has no mismatch.
pub proof fn lemma_uniform_has_no_mismatch(s: Seq<u64>, pattern: u64)
    requires
        all_equal(s, pattern),
    ensures
        mismatch_count(s, pattern) == 0,
    decreases s.len(),
{
    if s.len() > 0 {
        lemma_uniform_has_no_mismatch(s.drop_last(), pattern);
    }
}

/// Changing one word of a pattern-filled sequence to another value gives
/// exactly one mismatch.
pub proof fn lemma_single_corruption_counted(s: Seq<u64>, pattern: u64, i: int, bad: u64)
    requires
        all_equal(s, pattern),
        0 <= i < s.len(),
        bad != pattern,
    ensures
        mismatch_count(s.update(i, bad), pattern) == 1,
    decreases s.len(),
{
    let t = s.update(i, bad);
    if i == s.len() - 1 {
        assert(t.drop_last() =~= s.drop_last());
        lemma_uniform_has_no_mismatch(s.drop_last(), pattern);
    } else {
        assert(t.drop_last() =~= s.drop_last().update(i, bad));
        lemma_single_corruption_counted(s.drop_last(), pattern, i, bad);
    }
}

/// Below this amount (tenths of a gigabyte), allocation is taken to have
/// failed.
pub const RAM_MIN_TESTED: u64 = 1;
/// Below this speed (tenths of a gigabyte per second), memory is faulty.
pub const RAM_MIN_SPEED: u64 = 3;

pub open spec fn ram_errors_reason(errors: nat) -> Seq<char> {
    "Memory errors detected ("@ + decimal(errors) + " errors) - BAD RAM"@
}

pub open spec fn ram_alloc_reason() -> Seq<char> {
    "Memory allocation failed"@
}

pub open spec fn ram_write_reason(w: int) -> Seq<char> {
    "Extremely low write speed ("@ + tenths_text(w) + " GB/s) - faulty RAM or wrong slot"@
}

pub open spec fn ram_read_reason(r: int) -> Seq<char> {
    "Extremely low read speed ("@ + tenths_text(r) + " GB/s) - faulty RAM or wrong slot"@
}

/// The RAM outcome: any mismatched word fails; so do a failed allocation
/// (under 0.1 GB tested) and a write or read speed under 0.3 GB/s.
pub open spec fn ram_health(tested: nat, write: nat, read: nat, errors: nat) -> HealthView {
    if errors > 0 {
        HealthView::Failed(ram_errors_reason(errors))
    } else if tested < RAM_MIN_TESTED {
        HealthView::Failed(ram_alloc_reason())
    } else if write < RAM_MIN_SPEED {
        HealthView::Failed(ram_write_reason(write as int))
    } else if read < RAM_MIN_SPEED {
        HealthView::Failed(ram_read_reason(read as int))
    } else {
        HealthView::Healthy
    }
}

/// Evaluates RAM health from the amount tested, the write and read speeds,
/// and the number of mismatched words.
pub fn evaluate_ram_health(test_gb: u64, write: u64, read: u64, errors: u64) -> (r: HealthStatus)
    ensures
        r@ == ram_health(test_gb as nat, write as nat, read as nat, errors as nat),
{
    if errors > 0 {
        let n = decimal_string(errors);
        return HealthStatus::Failed(join3("Memory errors detected (", n.as_str(), " errors) - BAD RAM"));
    }
    if test_gb < RAM_MIN_TESTED {
        return HealthStatus::Failed(String::from_str("Memory allocation failed"));
    }
    if write < RAM_MIN_SPEED {
        let v = tenths_string_u64(write);
        return HealthStatus::Failed(join3("Extremely low write speed (", v.as_str(), " GB/s) - faulty RAM or wrong slot"));
    }
    if read < RAM_MIN_SPEED {
        let v = tenths_string_u64(read);
        return HealthStatus::Failed(join3("Extremely low read speed (", v.as_str(), " GB/s) - faulty RAM or wrong slot"));
    }
    HealthStatus::Healthy
}

/// Data integrity comes first: any mismatched word fails the RAM with the
/// memory-error reason, whatever the size and speeds.
pub proof fn lemma_ram_integrity_dominates(tested: nat, write: nat, read: nat, errors: nat)
    requires
        errors > 0,
    ensures
        ram_health(tested, write, read, errors) == HealthView::Failed(ram_errors_reason(errors)),
{
}

/// A buffer filled with the pattern and read back unchanged has no
/// mismatch, and with adequate size and speeds the RAM outcome is healthy.
pub proof fn lemma_ram_round_trip(buf: Seq<u64>, tested: nat, write: nat, read: nat)
    requires
        all_equal(buf, RAM_PATTERN),
        tested >= RAM_MIN_TESTED,
        write >= RAM_MIN_SPEED,
        read >= RAM_MIN_SPEED,
    ensures
        mismatch_count(buf, RAM_PATTERN) == 0,
        ram_health(tested, write, read, mismatch_count(buf, RAM_PATTERN)) == HealthView::Healthy,
{
    lemma_uniform_has_no_mismatch(buf, RAM_PATTERN);
}

/// One corrupted word in a pattern-filled buffer is counted, and the RAM
/// outcome is then a failure whatever the size and speeds.
pub proof fn lemma_ram_corruption_fails(buf: Seq<u64>, i: int, bad: u64, tested: nat, write: nat, read: nat)
    requires
        all_equal(buf, RAM_PATTERN),
        0 <= i < buf.len(),
        bad != RAM_PATTERN,
    ensures
        mismatch_count(buf.update(i, bad), RAM_PATTERN) >= 1,
        ram_health(tested, write, read, mismatch_count(buf.update(i, bad), RAM_PATTERN)) is Failed,
{
    lemma_single_corruption_counted(buf, RAM_PATTERN, i, bad);
}

/// Amount to test from the memory available, in bytes: 80% of what is
/// available, at most 80% of the total and at most 16 GB (all rounded down
/// to whole bytes); an explicit amount in tenths of a gigabyte replaces the
/// share but stays capped at 16 GB.
pub open spec fn standalone_test_bytes(max_tenths: Option<u64>, total: nat, available: nat) -> nat {
    let share = match max_tenths {
        Some(t) => t as nat * (GIB as nat) / 10,
        None => if available <= total { available * 8 / 10 } else { total * 8 / 10 },
    };
    if share > 16 * GIB as nat { 16 * GIB as nat } else { share }
}

/// Works out the standalone test size in bytes.
pub fn standalone_test_size(config: &RamTestConfig, total: u64, available: u64) -> (r: u64)
    ensures
        r == standalone_test_bytes(config.max_gb, total as nat, available as nat),
{
    let cap: u64 = 16 * GIB;
    let share: u128 = match config.max_gb {
        Some(t) => {
            assert((t as int) * (GIB as int) <= u64::MAX as int * (GIB as int)) by (nonlinear_arith)
                requires t <= u64::MAX;
            (t as u128) * (GIB as u128) / 10
        },
        None => {
            let base = if available <= total { available } else { total };
            (base as u128) * 8 / 10
        }
    };
    if share > cap as u128 { cap } else { share as u64 }
}

/// Amount to test in a torture lane, in bytes: half of what is available,
/// at most 4 GB.
pub open spec fn torture_test_bytes(available: nat) -> nat {
    if available / 2 > 4 * GIB as nat { 4 * GIB as nat } else { available / 2 }
}

/// Works out the torture lane's test size in bytes.
pub fn torture_test_size(available: u64) -> (r: u64)
    ensures
        r == torture_test_bytes(available as nat),
{
    let cap: u64 = 4 * GIB;
    let half = available / 2;
    if half > cap { cap } else { half }
}

/// A byte count in tenths of a gigabyte, rounded down.
pub open spec fn bytes_to_tenths_gb(bytes: nat) -> nat {
    bytes * 10 / (GIB as nat)
}

/// Converts a byte count to tenths of a gigabyte.
pub fn tenths_gb(bytes: u64) -> (r: u64)
    ensures
        r == bytes_to_tenths_gb(bytes as nat),
{
    let q = (bytes as u128) * 10 / (GIB as u128);
    assert(q <= bytes) by (nonlinear_arith)
        requires q == (bytes as int * 10) / (GIB as int), GIB == 1073741824;
    q as u64
}

/// Speed in tenths of a gigabyte per second for `bytes` handled in `nanos`
/// nanoseconds (rounded down, at most `u64::MAX`); zero when no time was
/// measured.
pub open spec fn gb_speed_tenths(bytes: nat, nanos: nat) -> nat {
    if nanos == 0 {
        0
    } else {
        let q = bytes * 10_000_000_000 / (GIB as nat * nanos);
        if q > u64::MAX { u64::MAX as nat } else { q }
    }
}

/// Computes a memory speed in tenths of a gigabyte per second.
pub fn gb_per_sec_tenths(bytes: u64, nanos: u64) -> (r: u64)
    ensures
        r == gb_speed_tenths(bytes as nat, nanos as nat),
{
    if nanos == 0 {
        0
    } else {
        assert((bytes as int) * 10_000_000_000 <= u64::MAX as int * 10_000_000_000) by (nonlinear_arith)
            requires bytes <= u64::MAX;
        assert((GIB as int) * (nanos as int) <= (GIB as int) * (u64::MAX as int)) by (nonlinear_arith)
            requires nanos <= u64::MAX;
        assert((GIB as int) * (nanos as int) >= 1) by (nonlinear_arith)
            requires nanos >= 1, GIB == 1073741824;
        let num = (bytes as u128) * 10_000_000_000u128;
        let den = (GIB as u128) * (nanos as u128);
        let q = num / den;
        if q > u64::MAX as u128 { u64::MAX } else { q as u64 }
    }
}

/// The result of a standalone RAM test; amounts in tenths of a gigabyte,
/// speeds in tenths of a gigabyte per second.
pub struct RamTestResult {
    pub ram_total_gb: u64,
    pub tested_gb: u64,
    pub write_speed_gb_s: u64,
    pub read_speed_gb_s: u64,
    pub errors: u64,
    pub health: HealthStatus,
}

/// The amount a standalone test reports as tested, in tenths of a
/// gigabyte: the configured amount (capped at 16 GB) when one was given,
/// else the bytes tested.
pub open spec fn reported_tenths(max_tenths: Option<u64>, tested_bytes: nat) -> nat {
    match max_tenths {
        Some(t) => if t > 160 { 160 } else { t as nat },
        None => bytes_to_tenths_gb(tested_bytes),
    }
}

/// Builds the result of a standalone RAM test from its settings, the bytes
/// tested, the time the write and the check took, and the mismatches found.
pub fn ram_test_result(
    config: &RamTestConfig,
    ram_total_gb: u64,
    tested_bytes: u64,
    write_nanos: u64,
    read_nanos: u64,
    errors: u64,
) -> (r: RamTestResult)
    ensures
        r.ram_total_gb == ram_total_gb,
        r.tested_gb == reported_tenths(config.max_gb, tested_bytes as nat),
        r.write_speed_gb_s == gb_speed_tenths(tested_bytes as nat, write_nanos as nat),
        r.read_speed_gb_s == gb_speed_tenths(tested_bytes as nat, read_nanos as nat),
        r.errors == errors,
        r.health@ == ram_health(r.tested_gb as nat, r.write_speed_gb_s as nat, r.read_speed_gb_s as nat, errors as nat),
{
    let tested = match config.max_gb {
        Some(t) => if t > 160 { 160 } else { t },
        None => tenths_gb(tested_bytes),
    };
    let write = gb_per_sec_tenths(tested_bytes, write_nanos);
    let read = gb_per_sec_tenths(tested_bytes, read_nanos);
    let health = evaluate_ram_health(tested, write, read, errors);
    RamTestResult { ram_total_gb, tested_gb: tested, write_speed_gb_s: write, read_speed_gb_s: read, errors, health }
}

} // verus!

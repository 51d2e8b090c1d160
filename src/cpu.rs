//! CPU stress: the prime-counting workload and the CPU outcome.
//!
//! Temperatures are in tenths of a degree Celsius; percentages (timing
//! variance, frequency drop) are in tenths of a percent.
use vstd::prelude::*;
use crate::health::{HealthStatus, HealthView, join3};
use crate::numfmt::{tenths_string, tenths_string_u64, tenths_text};

verus! {

/// One CPU temperature reading, in tenths of a degree Celsius.
#[derive(Clone, Copy, Debug, PartialEq, Eq)]
pub struct CpuTemp {
    pub current: i64,
}

/// Settings of a standalone CPU test.
pub struct CpuTestConfig {
    pub duration_secs: u64,
    /// Worker threads; one per logical core when absent.
    pub thread_count: Option<usize>,
    pub verbose: bool,
}

impl Default for CpuTestConfig {
    /// Sixty seconds, one worker per core, quiet.
    fn default() -> (r: CpuTestConfig)
        ensures
            r.duration_secs == 60,
            r.thread_count is None,
            !r.verbose,
    {
        CpuTestConfig { duration_secs: 60, thread_count: None, verbose: false }
    }
}

/// Prime counting work per timed iteration of a standalone worker.
pub const CPU_PRIME_WORKLOAD: usize = 10000;

/// `n` is a prime number.
pub open spec fn is_prime_spec(n: nat) -> bool {
    n >= 2 && forall|d: nat| 2 <= d < n ==> #[trigger] (n % d) != 0
}

/// Number of primes below `m`.
pub open spec fn prime_count(m: nat) -> nat
    decreases m,
{
    if m == 0 {
        0
    } else {
        prime_count((m - 1) as nat) + if is_prime_spec((m - 1) as nat) { 1nat } else { 0nat }
    }
}

proof fn lemma_prime_count_monotone(a: nat, b: nat)
    requires
        a <= b,
    ensures
        prime_count(a) <= prime_count(b),
    decreases b - a,
{
    if a < b {
        lemma_prime_count_monotone(a, (b - 1) as nat);
    }
}

proof fn lemma_cofactor_small(n: nat, d: nat, i: nat)
    requires
        2 <= d < n,
        n % d == 0,
        d >= i,
        i > 0,
        i * i > n,
    ensures
        2 <= n / d < i,
        n % (n / d) == 0,
{
    let e = n / d;
    vstd::arithmetic::div_mod::lemma_fundamental_div_mod(n as int, d as int);
    assert(n == d * e);
    assert(e >= 2) by (nonlinear_arith)
        requires n == d * e, d < n, d >= 2;
    assert(e < i) by (nonlinear_arith)
        requires n == d * e, d >= i, i * i > n, i > 0, e >= 0;
    vstd::arithmetic::div_mod::lemma_mod_multiples_basic(d as int, e as int);
    assert(((d * e) as int) % (e as int) == 0) by {
        vstd::arithmetic::mul::lemma_mul_is_commutative(d as int, e as int);
    }
}

proof fn lemma_even_divisor(n: nat, d: nat)
    requires
        d >= 2,
        d % 2 == 0,
        n % d == 0,
    ensures
        n % 2 == 0,
{
    vstd::arithmetic::div_mod::lemma_fundamental_div_mod(n as int, d as int);
    vstd::arithmetic::div_mod::lemma_fundamental_div_mod(d as int, 2);
    let q = n / d;
    let k = d / 2;
    assert(n == 2 * (k * q)) by (nonlinear_arith)
        requires n == d * q, d == 2 * k;
    vstd::arithmetic::div_mod::lemma_mod_multiples_basic((k * q) as int, 2);
}

/// Tells whether `n` is prime, by trial division with odd divisors up to
/// the square root.
pub fn is_prime(n: usize) -> (r: bool)
    ensures
        r == is_prime_spec(n as nat),
{
    if n < 2 {
        return false;
    }
    if n == 2 {
        return true;
    }
    if n % 2 == 0 {
        assert(n as nat % 2 == 0);
        return false;
    }
    let mut i: usize = 3;
    while i <= n / i
        invariant
            3 <= i,
            i % 2 == 1,
            n >= 3,
            n % 2 == 1,
            forall|d: nat| 2 <= d < i ==> #[trigger] ((n as nat) % d) != 0,
        decreases n - i,
    {
        proof {
            assert(i * i <= n) by (nonlinear_arith)
                requires i <= n / i, i > 0;
            assert(i < n) by (nonlinear_arith)
                requires i * i <= n, i >= 3;
        }
        if n % i == 0 {
            assert((n as nat) % (i as nat) == 0);
            return false;
        }
        proof {
            assert forall|d: nat| 2 <= d < i + 2 implies #[trigger] ((n as nat) % d) != 0 by {
                if d == i + 1 {
                    if (n as nat) % d == 0 {
                        lemma_even_divisor(n as nat, d);
                    }
                }
            }
            assert(i * i <= n) by (nonlinear_arith)
                requires i <= n / i, i > 0;
            assert(i < n) by (nonlinear_arith)
                requires i * i <= n, i >= 3;
        }
        i = i + 2;
    }
    proof {
        assert(i * i > n) by (nonlinear_arith)
            requires i > n / i, i > 0;
        assert forall|d: nat| 2 <= d < n implies #[trigger] ((n as nat) % d) != 0 by {
            if d >= i && (n as nat) % d == 0 {
                lemma_cofactor_small(n as nat, d, i as nat);
                let e = (n as nat) / d;
                assert((n as nat) % e != 0);
            }
        }
    }
    true
}

/// Counts primes upward from 2 until `n` have been found, the work unit of
/// every CPU worker; returns how many were found (`n`, unless the machine's
/// integers run out first).
pub fn calculate_primes(n: usize) -> (r: usize)
    ensures
        r == if n <= prime_count(usize::MAX as nat) { n as nat } else { prime_count(usize::MAX as nat) },
{
    let mut count: usize = 0;
    let mut num: usize = 2;
    assert(prime_count(2) == 0) by {
        assert(prime_count(0) == 0);
        assert(prime_count(1) == 0);
        assert(!is_prime_spec(0) && !is_prime_spec(1));
    }
    while count < n && num < usize::MAX
        invariant
            2 <= num,
            count <= n,
            count == prime_count(num as nat),
        decreases usize::MAX - num,
    {
        if is_prime(num) {
            count = count + 1;
        }
        num = num + 1;
    }
    proof {
        lemma_prime_count_monotone(num as nat, usize::MAX as nat);
    }
    count
}

/// Frequency lost between two readings, in tenths of a percent of the first
/// (rounded down); zero when the first reading is zero.
pub open spec fn frequency_drop_spec(start_mhz: nat, end_mhz: nat) -> nat {
    if start_mhz == 0 || end_mhz >= start_mhz { 0 } else { (((start_mhz - end_mhz) * 1000) / (start_mhz as int)) as nat }
}

/// Computes the frequency drop of a run, in tenths of a percent.
pub fn frequency_drop_tenths(start_mhz: u64, end_mhz: u64) -> (r: u64)
    ensures
        r == frequency_drop_spec(start_mhz as nat, end_mhz as nat),
        r <= 1000,
{
    if start_mhz == 0 || end_mhz >= start_mhz {
        0
    } else {
        let lost = (start_mhz - end_mhz) as u128;
        let s = start_mhz as u128;
        let prod = lost * 1000;
        let r = prod / s;
        assert(r <= 1000) by (nonlinear_arith)
            requires r == prod / s, prod as int == lost as int * 1000, lost <= s, s > 0;
        r as u64
    }
}

/// Above this (tenths of a degree), the CPU is overheating.
pub const CPU_FAIL_TEMP: i64 = 950;
/// Above this (tenths of a degree), the CPU runs hot.
pub const CPU_HOT_TEMP: i64 = 850;
/// Above this (tenths of a percent), the CPU was throttled.
pub const CPU_THROTTLE_DROP: u64 = 100;
/// Above this (tenths of a percent), timing variance means a possible fault.
pub const CPU_VARIANCE_LIMIT: u64 = 2000;

pub open spec fn cpu_crash_reason() -> Seq<char> {
    "CPU crashed during test - FAULTY HARDWARE"@
}

pub open spec fn cpu_overheat_reason(t: int) -> Seq<char> {
    "CPU overheating ("@ + tenths_text(t) + "°C) - cooling system failure"@
}

pub open spec fn cpu_hot_issue(t: int) -> Seq<char> {
    "CPU running hot ("@ + tenths_text(t) + "°C) - check cooling"@
}

pub open spec fn cpu_throttle_issue(d: int) -> Seq<char> {
    "CPU throttled by "@ + tenths_text(d) + "% - possible thermal or power limit"@
}

pub open spec fn cpu_instability_reason(v: int) -> Seq<char> {
    "Extreme instability detected (variance: "@ + tenths_text(v) + "%) - possible CPU fault"@
}

/// The CPU outcome: a crashed worker fails outright; then overheating
/// (above 95.0 °C) and extreme timing variance (above 200.0 %) fail; a hot
/// CPU (above 85.0 °C) and a frequency drop above 10.0 % are issues.
pub open spec fn cpu_health(completed: bool, variance: int, temperature: Option<int>, freq_drop: int) -> HealthView {
    if !completed {
        HealthView::Failed(cpu_crash_reason())
    } else if temperature is Some && temperature->0 > CPU_FAIL_TEMP {
        HealthView::Failed(cpu_overheat_reason(temperature->0))
    } else if variance > CPU_VARIANCE_LIMIT {
        HealthView::Failed(cpu_instability_reason(variance))
    } else {
        let hot: Seq<Seq<char>> = if temperature is Some && temperature->0 > CPU_HOT_TEMP {
            seq![cpu_hot_issue(temperature->0)]
        } else {
            Seq::empty()
        };
        let throttled: Seq<Seq<char>> = if freq_drop > CPU_THROTTLE_DROP as int {
            seq![cpu_throttle_issue(freq_drop)]
        } else {
            Seq::empty()
        };
        crate::health::from_issues(hot + throttled)
    }
}

/// The CPU bands, for a run whose workers all completed: nominal variance
/// (0 to 200.0 %), temperature (at most 85.0 °C) and frequency drop (at most
/// 10.0 %) are healthy; a temperature above 85.0 and at most 95.0 °C, with
/// nominal variance, is an issue; above 95.0 °C is a failure whatever the
/// variance.
pub proof fn lemma_cpu_health_bands(variance: int, temperature: Option<int>, freq_drop: int)
    ensures
        0 <= variance <= CPU_VARIANCE_LIMIT && (temperature is None || temperature->0 <= CPU_HOT_TEMP)
            && freq_drop <= CPU_THROTTLE_DROP ==> cpu_health(true, variance, temperature, freq_drop) == HealthView::Healthy,
        temperature is Some && CPU_HOT_TEMP < temperature->0 <= CPU_FAIL_TEMP && variance <= CPU_VARIANCE_LIMIT
            ==> cpu_health(true, variance, temperature, freq_drop) is Issues,
        temperature is Some && temperature->0 > CPU_FAIL_TEMP ==> cpu_health(true, variance, temperature, freq_drop) is Failed,
{
}

/// Evaluates CPU health from a run's results: whether every worker
/// completed, the timing variance, the peak temperature, and the frequency
/// drop.
pub fn evaluate_cpu_health(
    completed: bool,
    variance: u64,
    temperature: Option<&CpuTemp>,
    freq_drop_pct: u64,
) -> (r: HealthStatus)
    ensures
        r@ == cpu_health(
            completed,
            variance as int,
            match temperature { Some(t) => Some(t.current as int), None => None },
            freq_drop_pct as int,
        ),
{
    let ghost temp: Option<int> = match temperature { Some(t) => Some(t.current as int), None => None };
    if !completed {
        return HealthStatus::Failed(String::from_str("CPU crashed during test - FAULTY HARDWARE"));
    }
    let mut issues: Vec<String> = Vec::new();
    let ghost hot: Seq<Seq<char>> = if temp is Some && temp->0 > CPU_HOT_TEMP {
        seq![cpu_hot_issue(temp->0)]
    } else {
        Seq::empty()
    };
    let ghost throttled: Seq<Seq<char>> = if freq_drop_pct > CPU_THROTTLE_DROP {
        seq![cpu_throttle_issue(freq_drop_pct as int)]
    } else {
        Seq::empty()
    };
    if let Some(t) = temperature {
        if t.current > CPU_FAIL_TEMP {
            let v = tenths_string(t.current);
            return HealthStatus::Failed(join3("CPU overheating (", v.as_str(), "°C) - cooling system failure"));
        } else if t.current > CPU_HOT_TEMP {
            let v = tenths_string(t.current);
            issues.push(join3("CPU running hot (", v.as_str(), "°C) - check cooling"));
        }
    }
    assert(issues@.map_values(|s: String| s@) =~= hot);
    if freq_drop_pct > CPU_THROTTLE_DROP {
        let v = tenths_string_u64(freq_drop_pct);
        issues.push(join3("CPU throttled by ", v.as_str(), "% - possible thermal or power limit"));
    }
    assert(issues@.map_values(|s: String| s@) =~= hot + throttled);
    if variance > CPU_VARIANCE_LIMIT as u64 {
        let v = tenths_string_u64(variance);
        return HealthStatus::Failed(join3("Extreme instability detected (variance: ", v.as_str(), "%) - possible CPU fault"));
    }
    assert(issues@.map_values(|s: String| s@) =~= hot + throttled);
    HealthStatus::from_issue_list(issues)
}

/// `r` is the square root of `x`, rounded down.
pub open spec fn is_floor_sqrt(r: nat, x: nat) -> bool {
    r * r <= x && x < (r + 1) * (r + 1)
}

/// The square root of `x`, rounded down.
pub fn floor_sqrt(x: u128) -> (r: u128)
    ensures
        is_floor_sqrt(r as nat, x as nat),
{
    let mut lo: u128 = 0;
    let mut hi: u128 = 0x1_0000_0000_0000_0000;
    assert(x < hi * hi) by (nonlinear_arith)
        requires x <= u128::MAX, hi == 0x1_0000_0000_0000_0000u128;
    while hi - lo > 1
        invariant
            lo < hi <= 0x1_0000_0000_0000_0000u128,
            lo * lo <= x,
            x < hi * hi,
        decreases hi - lo,
    {
        let mid = lo + (hi - lo) / 2;
        assert(mid * mid < 0x1_0000_0000_0000_0000u128 * 0x1_0000_0000_0000_0000u128) by (nonlinear_arith)
            requires mid < 0x1_0000_0000_0000_0000u128;
        assert(mid * mid <= u128::MAX) by (nonlinear_arith)
            requires mid < 0x1_0000_0000_0000_0000u128;
        if mid * mid <= x {
            lo = mid;
        } else {
            hi = mid;
        }
    }
    assert(hi == lo + 1);
    lo
}

/// Sum of the squared distances of the timings from `mean`.
pub open spec fn sq_dev_sum(times: Seq<u64>, mean: nat) -> nat
    decreases times.len(),
{
    if times.len() == 0 {
        0
    } else {
        let d = if times.last() >= mean { (times.last() - mean) as nat } else { (mean - times.last()) as nat };
        sq_dev_sum(times.drop_last(), mean) + d * d
    }
}

/// Sum of the timings.
pub open spec fn time_sum(times: Seq<u64>) -> nat
    decreases times.len(),
{
    if times.len() == 0 { 0 } else { time_sum(times.drop_last()) + times.last() as nat }
}

/// Timings in microseconds of one iteration each, as the variance needs
/// them: fewer than 2^32 of them, each under 2^32.
pub open spec fn timings_in_range(times: Seq<u64>) -> bool {
    times.len() < 0x1_0000_0000 && forall|i: int| 0 <= i < times.len() ==> #[trigger] times[i] < 0x1_0000_0000
}

proof fn lemma_time_sum_bound(times: Seq<u64>)
    requires
        forall|i: int| 0 <= i < times.len() ==> #[trigger] times[i] < 0x1_0000_0000,
    ensures
        time_sum(times) <= times.len() * 0xffff_ffff,
    decreases times.len(),
{
    if times.len() > 0 {
        let t = times.drop_last();
        assert forall|i: int| 0 <= i < t.len() implies #[trigger] t[i] < 0x1_0000_0000 by {
            assert(t[i] == times[i]);
        }
        lemma_time_sum_bound(t);
    }
}

proof fn lemma_sq_dev_bound(times: Seq<u64>, mean: nat)
    requires
        forall|i: int| 0 <= i < times.len() ==> #[trigger] times[i] < 0x1_0000_0000,
        mean < 0x1_0000_0000,
    ensures
        sq_dev_sum(times, mean) <= times.len() * (0xffff_ffff * 0xffff_ffff),
    decreases times.len(),
{
    if times.len() > 0 {
        let t = times.drop_last();
        assert forall|i: int| 0 <= i < t.len() implies #[trigger] t[i] < 0x1_0000_0000 by {
            assert(t[i] == times[i]);
        }
        lemma_sq_dev_bound(t, mean);
        let last = times.last();
        let d = if last >= mean { (last - mean) as nat } else { (mean - last) as nat };
        assert(d * d <= 0xffff_ffff * 0xffff_ffff) by (nonlinear_arith)
            requires d <= 0xffff_ffff;
        assert(t.len() * (0xffff_ffff * 0xffff_ffff) + 0xffff_ffff * 0xffff_ffff == times.len() * (0xffff_ffff * 0xffff_ffff)) by (nonlinear_arith)
            requires t.len() + 1 == times.len();
    }
}

/// Mean of the timings, rounded down; zero for none.
pub fn mean_micros(times: &[u64]) -> (r: u64)
    requires
        timings_in_range(times@),
    ensures
        r == if times@.len() == 0 { 0 } else { time_sum(times@) / times@.len() },
        r < 0x1_0000_0000,
{
    let n = times.len();
    if n == 0 {
        return 0;
    }
    let mut i: usize = 0;
    let mut sum: u128 = 0;
    while i < n
        invariant
            n == times@.len(),
            timings_in_range(times@),
            i <= n,
            sum == time_sum(times@.subrange(0, i as int)),
            sum <= i * 0xffff_ffff,
        decreases n - i,
    {
        assert(times@.subrange(0, i + 1).drop_last() =~= times@.subrange(0, i as int));
        sum = sum + times[i] as u128;
        i = i + 1;
    }
    assert(times@.subrange(0, n as int) =~= times@);
    let m = sum / (n as u128);
    assert(m <= 0xffff_ffff) by (nonlinear_arith)
        requires m as int == (sum as int) / (n as int), sum <= n * 0xffff_ffff, n > 0;
    m as u64
}

/// The coefficient of variation of the timings around `mean`, in tenths
/// of a percent: 1000 times the standard deviation over the mean, rounded
/// down; zero for no timings or a zero mean.
pub open spec fn variance_spec(times: Seq<u64>, mean: nat, r: nat) -> bool {
    if times.len() == 0 || mean == 0 {
        r == 0
    } else {
        exists|s: nat| #[trigger] is_floor_sqrt(s, 1_000_000 * sq_dev_sum(times, mean) / times.len()) && r == s / mean
    }
}

/// Computes the coefficient of variation of per-iteration timings, the
/// CPU's stability signal.
pub fn calculate_variance(times: &[u64], mean: u64) -> (r: u64)
    requires
        timings_in_range(times@),
        mean < 0x1_0000_0000,
    ensures
        variance_spec(times@, mean as nat, r as nat),
{
    let n = times.len();
    if n == 0 || mean == 0 {
        return 0;
    }
    let mut i: usize = 0;
    let mut sq: u128 = 0;
    while i < n
        invariant
            n == times@.len(),
            timings_in_range(times@),
            mean < 0x1_0000_0000,
            i <= n,
            sq == sq_dev_sum(times@.subrange(0, i as int), mean as nat),
            sq <= i * (0xffff_ffff * 0xffff_ffff),
        decreases n - i,
    {
        let t = times[i];
        assert(times@.subrange(0, i + 1).drop_last() =~= times@.subrange(0, i as int));
        let d: u128 = if t >= mean { (t - mean) as u128 } else { (mean - t) as u128 };
        assert(d * d <= 0xffff_ffff * 0xffff_ffff) by (nonlinear_arith)
            requires d <= 0xffff_ffff;
        assert((i + 1) * (0xffff_ffff * 0xffff_ffff) <= 0x1_0000_0000 * (0xffff_ffff * 0xffff_ffff)) by (nonlinear_arith)
            requires i < 0x1_0000_0000;
        assert(i * (0xffff_ffff * 0xffff_ffff) + 0xffff_ffff * 0xffff_ffff == (i + 1) * (0xffff_ffff * 0xffff_ffff)) by (nonlinear_arith);
        assert(0x1_0000_0000 * (0xffff_ffff * 0xffff_ffff) <= u128::MAX);
        sq = sq + d * d;
        i = i + 1;
    }
    assert(times@.subrange(0, n as int) =~= times@);
    assert(sq * 1_000_000 <= 0x1_0000_0000 * (0xffff_ffff * 0xffff_ffff) * 1_000_000) by (nonlinear_arith)
        requires sq <= n * (0xffff_ffff * 0xffff_ffff), n < 0x1_0000_0000;
    let q = sq * 1_000_000 / (n as u128);
    let s = floor_sqrt(q);
    assert(1_000_000 * sq_dev_sum(times@, mean as nat) / times@.len() == q as nat);
    let r = s / (mean as u128);
    assert(r <= s);
    assert(s < 0x1_0000_0000_0000_0000) by (nonlinear_arith)
        requires s * s <= q, q <= u128::MAX;
    proof {
        assert(is_floor_sqrt(s as nat, q as nat));
    }
    if r > u64::MAX as u128 { u64::MAX } else { r as u64 }
}

/// The result of a standalone CPU test; times in microseconds, variance
/// and frequency drop in tenths of a percent.
pub struct CpuTestResult {
    pub cpu_model: String,
    pub cpu_cores: usize,
    pub operations: u64,
    pub ops_per_second: u64,
    pub avg_op_time_us: u64,
    pub variance_pct: u64,
    pub temperature: Option<CpuTemp>,
    pub frequency_start_mhz: u64,
    pub frequency_end_mhz: u64,
    pub freq_drop_pct: u64,
    pub health: HealthStatus,
}

/// The hottest of the temperature readings, none when there are none.
pub open spec fn peak_temp(samples: Seq<i64>) -> Option<i64>
    decreases samples.len(),
{
    if samples.len() == 0 {
        None
    } else {
        crate::gpu::max_with(peak_temp(samples.drop_last()), samples.last())
    }
}

/// Finds the hottest of the temperature readings.
pub fn peak_temperature(samples: &[i64]) -> (r: Option<CpuTemp>)
    ensures
        r == match peak_temp(samples@) { Some(t) => Some(CpuTemp { current: t }), None => None },
{
    let mut peak: Option<i64> = None;
    let mut i: usize = 0;
    while i < samples.len()
        invariant
            i <= samples@.len(),
            peak == peak_temp(samples@.subrange(0, i as int)),
        decreases samples@.len() - i,
    {
        assert(samples@.subrange(0, i + 1).drop_last() =~= samples@.subrange(0, i as int));
        peak = crate::gpu::update_max_temp(peak, samples[i]);
        i = i + 1;
    }
    assert(samples@.subrange(0, samples@.len() as int) =~= samples@);
    match peak {
        Some(t) => Some(CpuTemp { current: t }),
        None => None,
    }
}

/// Builds the result of a standalone CPU test from what the run measured:
/// whether every worker completed, the operations done, each iteration's
/// time, every temperature reading taken during the run (judged by the
/// hottest) and the frequencies at start and end.
pub fn cpu_test_result(
    cpu_model: String,
    cpu_cores: usize,
    duration_secs: u64,
    completed: bool,
    operations: u64,
    times: &[u64],
    temperatures: &[i64],
    frequency_start_mhz: u64,
    frequency_end_mhz: u64,
) -> (r: CpuTestResult)
    requires
        timings_in_range(times@),
    ensures
        r.cpu_model == cpu_model,
        r.cpu_cores == cpu_cores,
        r.operations == operations,
        r.ops_per_second == if duration_secs == 0 { 0 } else { operations / duration_secs },
        r.avg_op_time_us == if times@.len() == 0 { 0 } else { time_sum(times@) / times@.len() },
        variance_spec(times@, r.avg_op_time_us as nat, r.variance_pct as nat),
        r.temperature == match peak_temp(temperatures@) { Some(t) => Some(CpuTemp { current: t }), None => None },
        r.frequency_start_mhz == frequency_start_mhz,
        r.frequency_end_mhz == frequency_end_mhz,
        r.freq_drop_pct == frequency_drop_spec(frequency_start_mhz as nat, frequency_end_mhz as nat),
        r.health@ == cpu_health(
            completed,
            r.variance_pct as int,
            match peak_temp(temperatures@) { Some(t) => Some(t as int), None => None },
            r.freq_drop_pct as int,
        ),
{
    let temperature = peak_temperature(temperatures);
    let ops_per_second = if duration_secs == 0 { 0 } else { operations / duration_secs };
    let avg = mean_micros(times);
    let variance = calculate_variance(times, avg);
    let drop = frequency_drop_tenths(frequency_start_mhz, frequency_end_mhz);
    let health = match &temperature {
        Some(t) => evaluate_cpu_health(completed, variance, Some(t), drop),
        None => evaluate_cpu_health(completed, variance, None, drop),
    };
    CpuTestResult {
        cpu_model,
        cpu_cores,
        operations,
        ops_per_second,
        avg_op_time_us: avg,
        variance_pct: variance,
        temperature,
        frequency_start_mhz,
        frequency_end_mhz,
        freq_drop_pct: drop,
        health,
    }
}

} // verus!

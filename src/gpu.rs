//! GPU stress: temperature tracking, the compute backend probe, and the GPU
//! outcome.
//!
//! Temperatures are in tenths of a degree Celsius.
use vstd::prelude::*;
use crate::health::{HealthStatus, HealthView, join3};
use crate::numfmt::{tenths_string, tenths_text};
use crate::strings::{contains_seq, str_contains};

verus! {

/// One GPU temperature reading, in tenths of a degree Celsius.
#[derive(Clone, Copy, Debug, PartialEq, Eq)]
pub struct GpuTemp {
    pub current: i64,
}

/// Thermal pressure level reported by the system.
#[derive(Clone, Copy, Debug, PartialEq, Eq, Structural)]
pub enum ThermalPressure {
    Nominal,
    Moderate,
    Heavy,
    Trapping,
    Sleeping,
    Unknown,
}

/// Settings of a standalone GPU test.
pub struct GpuTestConfig {
    pub duration_secs: u64,
    pub verbose: bool,
}

impl Default for GpuTestConfig {
    /// Thirty seconds, quiet.
    fn default() -> (r: GpuTestConfig)
        ensures
            r.duration_secs == 30,
            !r.verbose,
    {
        GpuTestConfig { duration_secs: 30, verbose: false }
    }
}

/// Result of a compute-shader stress run.
#[derive(Clone, Debug)]
pub struct GpuComputeResult {
    pub gpu_name: String,
    pub backend: String,
    pub frames_dispatched: u32,
}

pub open spec fn compute_unavailable_reason() -> Seq<char> {
    "GPU compute stress test not enabled. Build with --features gpu-compute"@
}

/// The compute backend probe. This library is built without the optional
/// compute backend, so the probe always reports it as not enabled and the
/// GPU test falls back to thermal polling.
pub fn run_gpu_compute_stress_sync(_duration_secs: u64, _show_progress: bool) -> (r: Result<GpuComputeResult, String>)
    ensures
        r is Err,
        r matches Err(e) && e@ == compute_unavailable_reason(),
{
    Err(String::from_str("GPU compute stress test not enabled. Build with --features gpu-compute"))
}

/// An integrated GPU of an Apple M-series chip, which has no die sensor of
/// its own.
pub open spec fn apple_silicon_spec(gpu_type: Seq<char>, gpu_model: Seq<char>) -> bool {
    contains_seq(gpu_type, "Integrated"@) && (contains_seq(gpu_model, "M1"@) || contains_seq(gpu_model, "M2"@)
        || contains_seq(gpu_model, "M3"@) || contains_seq(gpu_model, "M4"@))
}

/// Tells whether a GPU is the integrated GPU of an Apple M-series chip.
pub fn is_apple_silicon(gpu_type: &str, gpu_model: &str) -> (r: bool)
    ensures
        r == apple_silicon_spec(gpu_type@, gpu_model@),
{
    str_contains(gpu_type, "Integrated") && (str_contains(gpu_model, "M1") || str_contains(gpu_model, "M2")
        || str_contains(gpu_model, "M3") || str_contains(gpu_model, "M4"))
}

/// The running maximum after one more reading.
pub open spec fn max_with(prev: Option<i64>, sample: i64) -> Option<i64> {
    match prev {
        Some(p) => if sample > p { Some(sample) } else { Some(p) },
        None => Some(sample),
    }
}

/// Folds one temperature reading into the running maximum.
pub fn update_max_temp(prev: Option<i64>, sample: i64) -> (r: Option<i64>)
    ensures
        r == max_with(prev, sample),
{
    match prev {
        Some(p) => if sample > p { Some(sample) } else { Some(p) },
        None => Some(sample),
    }
}

/// Above this (tenths of a degree), the GPU is overheating.
pub const GPU_FAIL_TEMP: i64 = 950;
/// Above this (tenths of a degree), the GPU runs hot.
pub const GPU_HOT_TEMP: i64 = 850;

pub open spec fn gpu_overheat_reason(t: int) -> Seq<char> {
    "GPU overheating ("@ + tenths_text(t) + "°C) - cooling system failure or defective GPU"@
}

pub open spec fn gpu_hot_issue(t: int) -> Seq<char> {
    "GPU running hot ("@ + tenths_text(t) + "°C) - check cooling system"@
}

pub open spec fn gpu_no_sensor_issue() -> Seq<char> {
    "GPU temperature sensor not available - unable to verify thermal status"@
}

/// The GPU outcome from the peak temperature: above 95.0 °C fails, above
/// 85.0 °C is an issue; without a reading, an Apple integrated GPU is
/// healthy and any other GPU has an issue.
pub open spec fn gpu_health(max_temp: Option<int>, is_apple_silicon: bool) -> HealthView {
    match max_temp {
        Some(t) => if t > GPU_FAIL_TEMP {
            HealthView::Failed(gpu_overheat_reason(t))
        } else if t > GPU_HOT_TEMP {
            HealthView::Issues(seq![gpu_hot_issue(t)])
        } else {
            HealthView::Healthy
        },
        None => if is_apple_silicon {
            HealthView::Healthy
        } else {
            HealthView::Issues(seq![gpu_no_sensor_issue()])
        },
    }
}

/// Evaluates GPU health from the peak temperature and the kind of GPU.
pub fn evaluate_gpu_health(max_temp: Option<i64>, is_apple_silicon: bool) -> (r: HealthStatus)
    ensures
        r@ == gpu_health(match max_temp { Some(t) => Some(t as int), None => None }, is_apple_silicon),
{
    let mut issues: Vec<String> = Vec::new();
    match max_temp {
        Some(t) => {
            if t > GPU_FAIL_TEMP {
                let v = tenths_string(t);
                return HealthStatus::Failed(join3("GPU overheating (", v.as_str(), "°C) - cooling system failure or defective GPU"));
            } else if t > GPU_HOT_TEMP {
                let v = tenths_string(t);
                issues.push(join3("GPU running hot (", v.as_str(), "°C) - check cooling system"));
                assert(issues@.map_values(|s: String| s@) =~= seq![gpu_hot_issue(t as int)]);
            }
        },
        None => {
            if is_apple_silicon {
                return HealthStatus::Healthy;
            }
            issues.push(String::from_str("GPU temperature sensor not available - unable to verify thermal status"));
            assert(issues@.map_values(|s: String| s@) =~= seq![gpu_no_sensor_issue()]);
        },
    }
    HealthStatus::from_issue_list(issues)
}

/// The result of a standalone GPU test; VRAM in tenths of a gigabyte.
pub struct GpuTestResult {
    pub gpu_model: String,
    pub gpu_type: String,
    pub vram_gb: Option<u64>,
    pub temperature_start: Option<GpuTemp>,
    pub temperature_end: Option<GpuTemp>,
    pub temperature_max: Option<i64>,
    pub is_apple_silicon: bool,
    pub health: HealthStatus,
}

/// The peak of the start reading, the readings taken during the run, and
/// the end reading.
pub open spec fn peak_of(start: Option<i64>, samples: Seq<i64>, end: Option<i64>) -> Option<i64>
    decreases samples.len(),
{
    if samples.len() == 0 {
        match (start, end) {
            (Some(s), Some(e)) => max_with(Some(s), e),
            (Some(s), None) => Some(s),
            (None, e) => e,
        }
    } else {
        max_with(peak_of(start, samples.drop_last(), end), samples.last())
    }
}

/// Builds the result of a standalone GPU test from its readings.
pub fn gpu_test_result(
    gpu_model: String,
    gpu_type: String,
    vram_gb: Option<u64>,
    temperature_start: Option<GpuTemp>,
    samples: &[i64],
    temperature_end: Option<GpuTemp>,
) -> (r: GpuTestResult)
    ensures
        r.gpu_model == gpu_model,
        r.gpu_type == gpu_type,
        r.vram_gb == vram_gb,
        r.temperature_start == temperature_start,
        r.temperature_end == temperature_end,
        r.temperature_max == peak_of(
            match temperature_start { Some(t) => Some(t.current), None => None },
            samples@,
            match temperature_end { Some(t) => Some(t.current), None => None },
        ),
        r.is_apple_silicon == apple_silicon_spec(gpu_type@, gpu_model@),
        r.health@ == gpu_health(match r.temperature_max { Some(t) => Some(t as int), None => None }, r.is_apple_silicon),
{
    let apple = is_apple_silicon(gpu_type.as_str(), gpu_model.as_str());
    let start: Option<i64> = match temperature_start { Some(t) => Some(t.current), None => None };
    let end: Option<i64> = match temperature_end { Some(t) => Some(t.current), None => None };
    let mut peak: Option<i64> = match (start, end) {
        (Some(s), Some(e)) => update_max_temp(Some(s), e),
        (Some(s), None) => Some(s),
        (None, e) => e,
    };
    let mut i: usize = 0;
    while i < samples.len()
        invariant
            i <= samples@.len(),
            peak == peak_of(start, samples@.subrange(0, i as int), end),
        decreases samples@.len() - i,
    {
        assert(samples@.subrange(0, i + 1).drop_last() =~= samples@.subrange(0, i as int));
        peak = update_max_temp(peak, samples[i]);
        i = i + 1;
    }
    assert(samples@.subrange(0, samples@.len() as int) =~= samples@);
    let health = evaluate_gpu_health(peak, apple);
    GpuTestResult {
        gpu_model,
        gpu_type,
        vram_gb,
        temperature_start,
        temperature_end,
        temperature_max: peak,
        is_apple_silicon: apple,
        health,
    }
}

} // verus!

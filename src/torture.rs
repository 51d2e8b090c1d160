//! The torture test: all four lanes under one round-robin schedule, its
//! states, and the overall outcome.
//!
//! Temperatures are in tenths of a degree Celsius.
use vstd::prelude::*;
use crate::lang::Language;
use crate::numfmt::{decimal, decimal_string, tenths_string, tenths_text};
use crate::health::join3;

verus! {

/// Settings of a torture test.
pub struct TortureConfig {
    pub duration_secs: u64,
    pub verbose: bool,
    pub language: Language,
    /// Start without asking the user to confirm.
    pub skip_confirm: bool,
}

/// Length of one scheduling cycle, in milliseconds.
pub const CYCLE_MS: u64 = 100;
/// Number of lanes sharing a cycle.
pub const LANE_COUNT: u64 = 4;
/// The dashboard is drawn once every this many cycles.
pub const RENDER_EVERY: u64 = 10;

/// The time slice each lane gets per cycle, in milliseconds.
pub fn chunk_ms() -> (r: u64)
    ensures
        r == CYCLE_MS / LANE_COUNT,
        r == 25,
{
    CYCLE_MS / LANE_COUNT
}

/// Stages of a torture test.
#[derive(Clone, Copy, Debug, PartialEq, Eq, Structural)]
pub enum TortureState {
    /// Waiting for the user to confirm.
    Prompt,
    /// The lanes are being driven.
    Running,
    /// The lanes are being stopped.
    Stopping,
    /// Results are collected (final).
    Summarized,
    /// The user declined (final).
    Cancelled,
}

/// What moves a torture test from one stage to the next.
#[derive(Clone, Copy, Debug, PartialEq, Eq, Structural)]
pub enum TortureEvent {
    /// The user answered the prompt: `true` to go ahead.
    Answered(bool),
    /// A scheduling check, with the milliseconds elapsed since the loop
    /// started.
    Tick(u64),
    /// Every lane has been stopped.
    AllStopped,
}

/// The stage after `event`, for a test configured to last `duration_ms`
/// and whose prompt is skipped when `skip_confirm` holds.
pub open spec fn next_state_spec(state: TortureState, event: TortureEvent, duration_ms: nat, skip_confirm: bool) -> TortureState {
    match (state, event) {
        (TortureState::Prompt, TortureEvent::Answered(yes)) => if yes || skip_confirm { TortureState::Running } else { TortureState::Cancelled },
        (TortureState::Running, TortureEvent::Tick(elapsed)) => if elapsed >= duration_ms { TortureState::Stopping } else { TortureState::Running },
        (TortureState::Stopping, TortureEvent::AllStopped) => TortureState::Summarized,
        _ => state,
    }
}

/// The stage a test starts in: the prompt, or running at once when the
/// prompt is skipped.
pub open spec fn initial_state_spec(skip_confirm: bool) -> TortureState {
    if skip_confirm { TortureState::Running } else { TortureState::Prompt }
}

impl TortureConfig {
    /// The duration in milliseconds.
    pub open spec fn duration_ms_spec(&self) -> nat {
        self.duration_secs as nat * 1000
    }

    /// The duration in milliseconds (saturating at `u64::MAX`).
    pub fn duration_ms(&self) -> (r: u64)
        ensures
            r == if self.duration_ms_spec() > u64::MAX { u64::MAX as nat } else { self.duration_ms_spec() },
    {
        if self.duration_secs > u64::MAX / 1000 { u64::MAX } else { self.duration_secs * 1000 }
    }

    /// The stage the test starts in.
    pub fn initial_state(&self) -> (r: TortureState)
        ensures
            r == initial_state_spec(self.skip_confirm),
    {
        if self.skip_confirm { TortureState::Running } else { TortureState::Prompt }
    }
}

/// Moves the test to its next stage.
pub fn next_state(state: TortureState, event: TortureEvent, duration_ms: u64, skip_confirm: bool) -> (r: TortureState)
    ensures
        r == next_state_spec(state, event, duration_ms as nat, skip_confirm),
{
    match (state, event) {
        (TortureState::Prompt, TortureEvent::Answered(yes)) => if yes || skip_confirm { TortureState::Running } else { TortureState::Cancelled },
        (TortureState::Running, TortureEvent::Tick(elapsed)) => if elapsed >= duration_ms { TortureState::Stopping } else { TortureState::Running },
        (TortureState::Stopping, TortureEvent::AllStopped) => TortureState::Summarized,
        _ => state,
    }
}

/// `Summarized` and `Cancelled` are final: no event leaves them.
pub proof fn lemma_final_states_absorb(state: TortureState, event: TortureEvent, duration_ms: nat, skip_confirm: bool)
    requires
        state == TortureState::Summarized || state == TortureState::Cancelled,
    ensures
        next_state_spec(state, event, duration_ms, skip_confirm) == state,
{
}

/// The pause after a cycle whose work took `work_ms`: what is left of the
/// cycle's budget, nothing once it is spent.
pub open spec fn pause_spec(work_ms: nat) -> nat {
    if work_ms < CYCLE_MS { (CYCLE_MS - work_ms) as nat } else { 0 }
}

/// How long to sleep after a cycle whose work took `work_ms`.
pub fn cycle_pause_ms(work_ms: u64) -> (r: u64)
    ensures
        r == pause_spec(work_ms as nat),
{
    if work_ms < CYCLE_MS { CYCLE_MS - work_ms } else { 0 }
}

/// The loop goes on while less than the configured duration has elapsed.
pub open spec fn keep_running_spec(elapsed_ms: nat, duration_ms: nat) -> bool {
    elapsed_ms < duration_ms
}

/// Tells whether the scheduling loop runs another cycle.
pub fn keep_running(elapsed_ms: u64, duration_ms: u64) -> (r: bool)
    ensures
        r == keep_running_spec(elapsed_ms as nat, duration_ms as nat),
{
    elapsed_ms < duration_ms
}

/// A cycle whose work fits in the budget lasts exactly one cycle once
/// paced; so when the loop checks the clock at the start of a cycle, runs
/// it, and then finds the duration reached, it stops no earlier than the
/// duration and less than one cycle after it.
pub proof fn lemma_exit_within_one_cycle(duration_ms: nat, start_ms: nat, work_ms: nat)
    requires
        keep_running_spec(start_ms, duration_ms),
        work_ms <= CYCLE_MS,
        !keep_running_spec(start_ms + work_ms + pause_spec(work_ms), duration_ms),
    ensures
        work_ms + pause_spec(work_ms) == CYCLE_MS,
        duration_ms <= start_ms + work_ms + pause_spec(work_ms) < duration_ms + CYCLE_MS,
{
}

/// The elapsed time at which the scheduling loop stops, when it checks the
/// clock at `start_ms`, and cycle `k` onward take `works(k)`, `works(k + 1)`,
/// ... milliseconds of work, each paced to at least one cycle length.
pub open spec fn loop_exit_ms(duration_ms: nat, start_ms: nat, works: spec_fn(nat) -> nat, k: nat) -> nat
    decreases (if start_ms < duration_ms { duration_ms - start_ms } else { 0 }),
{
    if !keep_running_spec(start_ms, duration_ms) {
        start_ms
    } else {
        loop_exit_ms(duration_ms, start_ms + works(k) + pause_spec(works(k)), works, k + 1)
    }
}

/// For every duration D and every run of cycles whose work fits in the
/// cycle budget, the loop started at 0 stops at an elapsed time t with
/// D <= t < D + one cycle; so the whole seconds it reports are at least
/// D's.
pub proof fn lemma_loop_exit_bounds(duration_ms: nat, works: spec_fn(nat) -> nat)
    requires
        forall|k: nat| #[trigger] works(k) <= CYCLE_MS,
    ensures
        duration_ms <= loop_exit_ms(duration_ms, 0, works, 0) < duration_ms + CYCLE_MS,
        loop_exit_ms(duration_ms, 0, works, 0) / 1000 >= duration_ms / 1000,
{
    lemma_loop_exit_from(duration_ms, 0, works, 0);
    let e = loop_exit_ms(duration_ms, 0, works, 0);
    assert(e / 1000 >= duration_ms / 1000) by (nonlinear_arith)
        requires e >= duration_ms;
}

proof fn lemma_loop_exit_from(duration_ms: nat, start_ms: nat, works: spec_fn(nat) -> nat, k: nat)
    requires
        forall|j: nat| #[trigger] works(j) <= CYCLE_MS,
        start_ms < duration_ms + CYCLE_MS,
    ensures
        duration_ms <= loop_exit_ms(duration_ms, start_ms, works, k) < duration_ms + CYCLE_MS,
    decreases (if start_ms < duration_ms { duration_ms - start_ms } else { 0 }),
{
    if keep_running_spec(start_ms, duration_ms) {
        assert(works(k) + pause_spec(works(k)) == CYCLE_MS);
        lemma_loop_exit_from(duration_ms, start_ms + works(k) + pause_spec(works(k)), works, k + 1);
    }
}

/// The running state of the scheduling loop: cycles done, whether the
/// dashboard was drawn yet, and the peak temperatures seen.
pub struct TortureSchedule {
    pub cycle_counter: u64,
    pub first_render: bool,
    pub max_cpu_temp: Option<i64>,
    pub max_gpu_temp: Option<i64>,
}

impl TortureSchedule {
    pub fn new() -> (r: TortureSchedule)
        ensures
            r.cycle_counter == 0,
            r.first_render,
            r.max_cpu_temp is None,
            r.max_gpu_temp is None,
    {
        TortureSchedule { cycle_counter: 0, first_render: true, max_cpu_temp: None, max_gpu_temp: None }
    }

    /// Records the end of a cycle with the temperatures sampled in it;
    /// returns whether the dashboard is due (every tenth cycle).
    pub fn end_cycle(&mut self, cpu_temp: Option<i64>, gpu_temp: Option<i64>) -> (render: bool)
        ensures
            final(self).cycle_counter == if old(self).cycle_counter == u64::MAX { u64::MAX } else { (old(self).cycle_counter + 1) as u64 },
            final(self).first_render == old(self).first_render,
            final(self).max_cpu_temp == match cpu_temp {
                Some(t) => crate::gpu::max_with(old(self).max_cpu_temp, t),
                None => old(self).max_cpu_temp,
            },
            final(self).max_gpu_temp == match gpu_temp {
                Some(t) => crate::gpu::max_with(old(self).max_gpu_temp, t),
                None => old(self).max_gpu_temp,
            },
            render == (final(self).cycle_counter % RENDER_EVERY == 0),
    {
        if let Some(t) = cpu_temp {
            self.max_cpu_temp = crate::gpu::update_max_temp(self.max_cpu_temp, t);
        }
        if let Some(t) = gpu_temp {
            self.max_gpu_temp = crate::gpu::update_max_temp(self.max_gpu_temp, t);
        }
        if self.cycle_counter < u64::MAX {
            self.cycle_counter = self.cycle_counter + 1;
        }
        self.cycle_counter % RENDER_EVERY == 0
    }

    /// Notes that the dashboard has been drawn once, so later draws
    /// overwrite it in place.
    pub fn rendered(&mut self)
        ensures
            !final(self).first_render,
            final(self).cycle_counter == old(self).cycle_counter,
            final(self).max_cpu_temp == old(self).max_cpu_temp,
            final(self).max_gpu_temp == old(self).max_gpu_temp,
    {
        self.first_render = false;
    }
}

/// What the CPU lane reports at the end.
pub struct CpuPartialResult {
    pub operations: u64,
    pub temp_c: Option<i64>,
    pub freq_mhz: u64,
    pub healthy: bool,
    pub status: Option<String>,
}

/// What the RAM lane reports at the end; `tested_gb` in tenths of a
/// gigabyte.
pub struct RamPartialResult {
    pub tested_gb: u64,
    pub errors: u64,
    pub healthy: bool,
    pub status: Option<String>,
}

/// What the disk lane reports at the end; speeds in thousandths of a
/// megabyte per second.
pub struct DiskPartialResult {
    pub write_speed_mb_s: u64,
    pub read_speed_mb_s: u64,
    pub healthy: bool,
    pub status: Option<String>,
}

/// What the GPU lane reports at the end.
pub struct GpuPartialResult {
    pub temp_c: Option<i64>,
    pub frames_rendered: u32,
    pub healthy: bool,
    pub status: Option<String>,
}

/// The outcome of a torture test.
pub struct TortureResult {
    pub duration_actual_secs: u64,
    pub cpu_result: Option<CpuPartialResult>,
    pub ram_result: Option<RamPartialResult>,
    pub disk_result: Option<DiskPartialResult>,
    pub gpu_result: Option<GpuPartialResult>,
    pub survived: bool,
}

/// The system survives when all four lanes are healthy.
pub open spec fn survived_spec(cpu: bool, ram: bool, disk: bool, gpu: bool) -> bool {
    cpu && ram && disk && gpu
}

impl TortureResult {
    /// The result of a test the user declined: nothing ran, nothing
    /// survived.
    pub fn cancelled() -> (r: TortureResult)
        ensures
            r.duration_actual_secs == 0,
            r.cpu_result is None,
            r.ram_result is None,
            r.disk_result is None,
            r.gpu_result is None,
            !r.survived,
    {
        TortureResult {
            duration_actual_secs: 0,
            cpu_result: None,
            ram_result: None,
            disk_result: None,
            gpu_result: None,
            survived: false,
        }
    }

    /// The result of a completed test, from the four lane results.
    pub fn completed(
        duration_actual_secs: u64,
        cpu: CpuPartialResult,
        ram: RamPartialResult,
        disk: DiskPartialResult,
        gpu: GpuPartialResult,
    ) -> (r: TortureResult)
        ensures
            r.duration_actual_secs == duration_actual_secs,
            r.cpu_result == Some(cpu),
            r.ram_result == Some(ram),
            r.disk_result == Some(disk),
            r.gpu_result == Some(gpu),
            r.survived == survived_spec(cpu.healthy, ram.healthy, disk.healthy, gpu.healthy),
    {
        let survived = cpu.healthy && ram.healthy && disk.healthy && gpu.healthy;
        TortureResult {
            duration_actual_secs,
            cpu_result: Some(cpu),
            ram_result: Some(ram),
            disk_result: Some(disk),
            gpu_result: Some(gpu),
            survived,
        }
    }
}

pub open spec fn ok_status() -> Seq<char> {
    "OK"@
}

pub open spec fn ok_no_temp_status() -> Seq<char> {
    "OK (no temp data)"@
}

pub open spec fn overheating_status(t: int) -> Seq<char> {
    "Overheating: "@ + tenths_text(t) + "°C"@
}

pub open spec fn running_hot_status(t: int) -> Seq<char> {
    "Running hot: "@ + tenths_text(t) + "°C"@
}

/// A lane outcome from a temperature: above `fail` overheating, above
/// `hot` running hot, both unhealthy; healthy otherwise and without data.
pub open spec fn thermal_lane_outcome(temp: Option<int>, fail: int, hot: int) -> (bool, Seq<char>) {
    match temp {
        Some(t) => if t > fail {
            (false, overheating_status(t))
        } else if t > hot {
            (false, running_hot_status(t))
        } else {
            (true, ok_status())
        },
        None => (true, ok_no_temp_status()),
    }
}

/// Judges a lane by its temperature against the two limits.
pub fn thermal_outcome(temp: Option<i64>, fail: i64, hot: i64) -> (r: (bool, String))
    ensures
        (r.0, r.1@) == thermal_lane_outcome(match temp { Some(t) => Some(t as int), None => None }, fail as int, hot as int),
{
    match temp {
        Some(t) => if t > fail {
            let v = tenths_string(t);
            (false, join3("Overheating: ", v.as_str(), "°C"))
        } else if t > hot {
            let v = tenths_string(t);
            (false, join3("Running hot: ", v.as_str(), "°C"))
        } else {
            (true, String::from_str("OK"))
        },
        None => (true, String::from_str("OK (no temp data)")),
    }
}

/// CPU lane limits: above 95.0 °C overheating, above 85.0 °C hot.
pub const CPU_LANE_FAIL: i64 = 950;
pub const CPU_LANE_HOT: i64 = 850;
/// GPU lane limits, as the CPU's: above 95.0 °C overheating, above 85.0 °C
/// hot.
pub const GPU_LANE_FAIL: i64 = 950;
pub const GPU_LANE_HOT: i64 = 850;

/// The CPU lane's final report from its operation count, temperature and
/// frequency.
pub fn cpu_partial_result(operations: u64, temp_c: Option<i64>, freq_mhz: u64) -> (r: CpuPartialResult)
    ensures
        r.operations == operations,
        r.temp_c == temp_c,
        r.freq_mhz == freq_mhz,
        r.status is Some,
        (r.healthy, r.status->0@) == thermal_lane_outcome(
            match temp_c { Some(t) => Some(t as int), None => None },
            CPU_LANE_FAIL as int,
            CPU_LANE_HOT as int,
        ),
{
    let (healthy, status) = thermal_outcome(temp_c, CPU_LANE_FAIL, CPU_LANE_HOT);
    CpuPartialResult { operations, temp_c, freq_mhz, healthy, status: Some(status) }
}

pub open spec fn ram_lane_errors_status(errors: nat) -> Seq<char> {
    decimal(errors) + " errors detected"@
}

pub open spec fn ram_lane_alloc_status() -> Seq<char> {
    "Allocation failed"@
}

/// The RAM lane outcome: any mismatched word, or under 0.1 GB tested, is
/// unhealthy.
pub open spec fn ram_lane_outcome(tested: nat, errors: nat) -> (bool, Seq<char>) {
    if errors > 0 {
        (false, ram_lane_errors_status(errors))
    } else if tested < 1 {
        (false, ram_lane_alloc_status())
    } else {
        (true, ok_status())
    }
}

/// The RAM lane's final report from the amount tested and its error count.
pub fn ram_partial_result(tested_gb: u64, errors: u64) -> (r: RamPartialResult)
    ensures
        r.tested_gb == tested_gb,
        r.errors == errors,
        r.status is Some,
        (r.healthy, r.status->0@) == ram_lane_outcome(tested_gb as nat, errors as nat),
{
    if errors > 0 {
        let msg = decimal_string(errors).concat(" errors detected");
        RamPartialResult { tested_gb, errors, healthy: false, status: Some(msg) }
    } else if tested_gb < 1 {
        RamPartialResult { tested_gb, errors, healthy: false, status: Some(String::from_str("Allocation failed")) }
    } else {
        RamPartialResult { tested_gb, errors, healthy: true, status: Some(String::from_str("OK")) }
    }
}

/// A value in thousandths rounded to tenths, halves up.
pub open spec fn thousandths_to_tenths(v: nat) -> nat {
    (v + 50) / 100
}

/// Rounds a value in thousandths to tenths, halves up.
pub fn round_to_tenths(v: u64) -> (r: u64)
    ensures
        r == thousandths_to_tenths(v as nat),
{
    let r = v / 100 + if v % 100 >= 50 { 1 } else { 0 };
    assert(r == (v + 50) / 100) by (nonlinear_arith)
        requires r == v / 100 + if v % 100 >= 50 { 1int } else { 0int };
    r
}

pub open spec fn disk_lane_write_status(w: nat) -> Seq<char> {
    "Very slow write: "@ + tenths_text(thousandths_to_tenths(w) as int) + " MB/s"@
}

pub open spec fn disk_lane_read_status(r: nat) -> Seq<char> {
    "Very slow read: "@ + tenths_text(thousandths_to_tenths(r) as int) + " MB/s"@
}

pub open spec fn disk_lane_errors_status(errors: nat) -> Seq<char> {
    decimal(errors) + " I/O errors"@
}

/// The disk lane outcome: a write or read speed under 1 MB/s, or any I/O
/// or verification error, is unhealthy.
pub open spec fn disk_lane_outcome(write: nat, read: nat, errors: nat) -> (bool, Seq<char>) {
    if write < 1000 {
        (false, disk_lane_write_status(write))
    } else if read < 1000 {
        (false, disk_lane_read_status(read))
    } else if errors > 0 {
        (false, disk_lane_errors_status(errors))
    } else {
        (true, ok_status())
    }
}

/// The disk lane's final report from its speeds and error count.
pub fn disk_partial_result(write_speed_mb_s: u64, read_speed_mb_s: u64, errors: u64) -> (r: DiskPartialResult)
    ensures
        r.write_speed_mb_s == write_speed_mb_s,
        r.read_speed_mb_s == read_speed_mb_s,
        r.status is Some,
        (r.healthy, r.status->0@) == disk_lane_outcome(write_speed_mb_s as nat, read_speed_mb_s as nat, errors as nat),
{
    if write_speed_mb_s < 1000 {
        let t = round_to_tenths(write_speed_mb_s);
        let v = crate::numfmt::tenths_string_u64(t);
        DiskPartialResult { write_speed_mb_s, read_speed_mb_s, healthy: false, status: Some(join3("Very slow write: ", v.as_str(), " MB/s")) }
    } else if read_speed_mb_s < 1000 {
        let t = round_to_tenths(read_speed_mb_s);
        let v = crate::numfmt::tenths_string_u64(t);
        DiskPartialResult { write_speed_mb_s, read_speed_mb_s, healthy: false, status: Some(join3("Very slow read: ", v.as_str(), " MB/s")) }
    } else if errors > 0 {
        let msg = decimal_string(errors).concat(" I/O errors");
        DiskPartialResult { write_speed_mb_s, read_speed_mb_s, healthy: false, status: Some(msg) }
    } else {
        DiskPartialResult { write_speed_mb_s, read_speed_mb_s, healthy: true, status: Some(String::from_str("OK")) }
    }
}

pub open spec fn gpu_no_sensor_status() -> Seq<char> {
    "No temperature data - thermal status unknown"@
}

/// The GPU lane outcome: by its temperature against the GPU limits; without
/// a reading, healthy only for an Apple integrated GPU, which has no die
/// sensor of its own.
pub open spec fn gpu_lane_outcome(temp: Option<int>, is_apple_silicon: bool) -> (bool, Seq<char>) {
    match temp {
        Some(t) => thermal_lane_outcome(Some(t), GPU_LANE_FAIL as int, GPU_LANE_HOT as int),
        None => if is_apple_silicon { (true, ok_no_temp_status()) } else { (false, gpu_no_sensor_status()) },
    }
}

/// The GPU lane's final report from its peak temperature, frame count and
/// kind of GPU.
pub fn gpu_partial_result(temp_c: Option<i64>, frames_rendered: u32, is_apple_silicon: bool) -> (r: GpuPartialResult)
    ensures
        r.temp_c == temp_c,
        r.frames_rendered == frames_rendered,
        r.status is Some,
        (r.healthy, r.status->0@) == gpu_lane_outcome(match temp_c { Some(t) => Some(t as int), None => None }, is_apple_silicon),
{
    if temp_c.is_none() && !is_apple_silicon {
        return GpuPartialResult {
            temp_c,
            frames_rendered,
            healthy: false,
            status: Some(String::from_str("No temperature data - thermal status unknown")),
        };
    }
    let (healthy, status) = thermal_outcome(temp_c, GPU_LANE_FAIL, GPU_LANE_HOT);
    GpuPartialResult { temp_c, frames_rendered, healthy, status: Some(status) }
}

/// A RAM lane that found even one mismatched word sinks the whole torture
/// test, however healthy the other lanes are.
pub proof fn lemma_ram_errors_sink_survival(tested: nat, errors: nat, cpu: bool, disk: bool, gpu: bool)
    requires
        errors >= 1,
    ensures
        !ram_lane_outcome(tested, errors).0,
        !survived_spec(cpu, ram_lane_outcome(tested, errors).0, disk, gpu),
{
}

/// The system survives exactly when every lane is healthy: one unhealthy
/// lane is enough to fail it, and four healthy lanes pass it.
pub proof fn lemma_survival_is_conjunction(cpu: bool, ram: bool, disk: bool, gpu: bool)
    ensures
        survived_spec(cpu, ram, disk, gpu) <==> (cpu && ram && disk && gpu),
        !cpu || !ram || !disk || !gpu ==> !survived_spec(cpu, ram, disk, gpu),
{
}

} // verus!

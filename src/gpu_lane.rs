//! The GPU lane of the torture test: thermal sampling around bounded
//! compute work. The caller supplies readings and paces the work to its
//! slice.
use vstd::prelude::*;
use crate::gpu::{max_with, update_max_temp};
use crate::torture::{GpuPartialResult, gpu_partial_result, gpu_lane_outcome};

verus! {

/// Steps of arithmetic in one unit of GPU-lane work.
pub const GPU_WORK_STEPS: u64 = 10000;

/// The accumulator after `k` steps of the work loop.
pub open spec fn work_acc(k: nat) -> u64
    decreases k,
{
    if k == 0 {
        0
    } else {
        let i = (k - 1) as u64;
        work_acc((k - 1) as nat).wrapping_add(i).wrapping_mul(3).wrapping_sub(i / 2)
    }
}

/// One unit of work: a fixed run of wrapping additions, multiplications
/// and subtractions.
pub fn gpu_work_unit() -> (r: u64)
    ensures
        r == work_acc(GPU_WORK_STEPS as nat),
{
    let mut acc: u64 = 0;
    let mut i: u64 = 0;
    while i < GPU_WORK_STEPS
        invariant
            i <= GPU_WORK_STEPS,
            acc == work_acc(i as nat),
        decreases GPU_WORK_STEPS - i,
    {
        acc = acc.wrapping_add(i).wrapping_mul(3);
        acc = acc.wrapping_sub(i / 2);
        i = i + 1;
    }
    acc
}

/// The GPU lane's state; temperatures in tenths of a degree.
pub struct GpuTortureTest {
    pub running: bool,
    pub frame_count: u32,
    pub target_duration_secs: u64,
    /// An Apple integrated GPU, which has no die sensor of its own.
    pub is_apple_silicon: bool,
    pub temp_samples: Vec<i64>,
    pub max_temp: Option<i64>,
    pub completed: bool,
}

/// What the dashboard shows of the GPU lane.
pub struct GpuMetrics {
    pub load_pct: u64,
    pub temp_c: Option<i64>,
    pub errors: u64,
    pub status: String,
}

impl GpuTortureTest {
    /// A completed lane is no longer running.
    pub open spec fn wf(&self) -> bool {
        self.completed ==> !self.running
    }

    /// The state after `stop`: no longer running, completed.
    pub open spec fn after_stop(self) -> GpuTortureTest {
        if self.completed { self } else { GpuTortureTest { running: false, completed: true, ..self } }
    }

    /// A fresh, running lane.
    pub fn new(duration_secs: u64, is_apple_silicon: bool) -> (r: GpuTortureTest)
        ensures
            r.wf(),
            r.running,
            !r.completed,
            r.frame_count == 0,
            r.target_duration_secs == duration_secs,
            r.is_apple_silicon == is_apple_silicon,
            r.temp_samples@.len() == 0,
            r.max_temp is None,
    {
        GpuTortureTest {
            running: true,
            frame_count: 0,
            target_duration_secs: duration_secs,
            is_apple_silicon,
            temp_samples: Vec::new(),
            max_temp: None,
            completed: false,
        }
    }

    /// Records the reading taken at the start of a slice, if any.
    pub fn record_temperature(&mut self, temp: Option<i64>)
        ensures
            final(self).wf() == old(self).wf(),
            final(self).running == old(self).running,
            final(self).completed == old(self).completed,
            final(self).frame_count == old(self).frame_count,
            final(self).temp_samples@ == match temp { Some(t) => old(self).temp_samples@.push(t), None => old(self).temp_samples@ },
            final(self).max_temp == match temp { Some(t) => max_with(old(self).max_temp, t), None => old(self).max_temp },
    {
        if let Some(t) = temp {
            self.temp_samples.push(t);
            self.max_temp = update_max_temp(self.max_temp, t);
        }
    }

    /// Does one unit of work and counts it as a frame; returns the work's
    /// result, which the caller keeps from being optimized away.
    pub fn work_unit(&mut self) -> (r: u64)
        ensures
            final(self).wf() == old(self).wf(),
            r == work_acc(GPU_WORK_STEPS as nat),
            final(self).frame_count == old(self).frame_count.wrapping_add(1),
            final(self).running == old(self).running,
            final(self).completed == old(self).completed,
            final(self).max_temp == old(self).max_temp,
            final(self).temp_samples == old(self).temp_samples,
    {
        let acc = gpu_work_unit();
        self.frame_count = self.frame_count.wrapping_add(1);
        acc
    }

    /// The caller yields briefly after every hundredth frame.
    pub fn should_yield(&self) -> (r: bool)
        ensures
            r == (self.frame_count % 100 == 0),
    {
        self.frame_count % 100 == 0
    }

    /// The load shown: none once stopped, 70 to 99 percent once frames
    /// run, 50 before.
    pub open spec fn load_spec(&self) -> nat {
        if !self.running { 0 } else if self.frame_count > 0 { 70 + (self.frame_count % 30) as nat } else { 50 }
    }

    /// A snapshot for the dashboard, with the current reading.
    pub fn get_metrics(&self, current_temp: Option<i64>) -> (r: GpuMetrics)
        ensures
            r.load_pct == self.load_spec(),
            r.temp_c == current_temp,
            r.errors == 0,
            r.status@ == "Stressing..."@,
    {
        let load: u64 = if !self.running { 0 } else if self.frame_count > 0 { 70 + (self.frame_count % 30) as u64 } else { 50 };
        GpuMetrics { load_pct: load, temp_c: current_temp, errors: 0, status: String::from_str("Stressing...") }
    }

    /// Stops the lane; calling it again changes nothing.
    pub fn stop(&mut self)
        requires
            old(self).wf(),
        ensures
            final(self).wf(),
            *final(self) == old(self).after_stop(),
            !final(self).running,
            final(self).completed,
    {
        if self.completed {
            return;
        }
        self.running = false;
        self.completed = true;
    }

    /// The lane's final report: the peak reading, or the current one when
    /// none was recorded.
    pub fn get_result(&self, current_temp: Option<i64>) -> (r: GpuPartialResult)
        ensures
            r.temp_c == match self.max_temp { Some(t) => Some(t), None => current_temp },
            r.frames_rendered == self.frame_count,
            r.status is Some,
            (r.healthy, r.status->0@) == gpu_lane_outcome(
                match r.temp_c { Some(t) => Some(t as int), None => None },
                self.is_apple_silicon,
            ),
    {
        let temp = match self.max_temp { Some(t) => Some(t), None => current_temp };
        gpu_partial_result(temp, self.frame_count, self.is_apple_silicon)
    }
}

/// Stopping the GPU lane twice leaves it as stopping it once does.
pub proof fn lemma_gpu_stop_idempotent(lane: GpuTortureTest)
    requires
        lane.wf(),
    ensures
        lane.after_stop().after_stop() == lane.after_stop(),
{
}

/// The CPU lane's stop control: its workers are signalled and joined on
/// the first stop only.
pub struct StopOnce {
    pub completed: bool,
}

impl StopOnce {
    /// The state after a stop, and whether that stop must join the
    /// workers.
    pub open spec fn begin_stop_spec(self) -> (StopOnce, bool) {
        (StopOnce { completed: true }, !self.completed)
    }

    pub fn new() -> (r: StopOnce)
        ensures
            !r.completed,
    {
        StopOnce { completed: false }
    }

    /// Marks the lane stopped; returns whether the caller must signal and
    /// join the workers now, which is so on the first call only.
    pub fn begin_stop(&mut self) -> (join_now: bool)
        ensures
            (*final(self), join_now) == old(self).begin_stop_spec(),
    {
        if self.completed {
            false
        } else {
            self.completed = true;
            true
        }
    }
}

/// Of two stops of the CPU lane, the second asks for no join and changes
/// nothing, so its workers are joined at most once.
pub proof fn lemma_cpu_stop_joins_once(s: StopOnce)
    ensures
        !s.begin_stop_spec().0.begin_stop_spec().1,
        s.begin_stop_spec().0.begin_stop_spec().0 == s.begin_stop_spec().0,
{
}

} // verus!

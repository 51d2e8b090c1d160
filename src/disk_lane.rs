//! The disk lane of the torture test. The lane decides and counts; the
//! caller performs the file operation it asks for and reports back.
use vstd::prelude::*;
use crate::disk::{DISK_CHUNK_BYTES, DISK_PATTERN, byte_mismatches, count_bad_bytes};
use crate::torture::{DiskPartialResult, disk_partial_result, disk_lane_outcome};
use crate::numfmt::{decimal, decimal_string};

verus! {

/// Stages of the disk lane.
#[derive(Clone, Copy, Debug, PartialEq, Eq, Structural)]
pub enum DiskPhase {
    CreateFile,
    Write,
    Read,
    Done,
}

/// The file operation the lane asks for next.
#[derive(Clone, Copy, Debug, PartialEq, Eq, Structural)]
pub enum DiskAction {
    /// Create (or truncate) the test file for reading and writing.
    CreateFile,
    /// Write one chunk of the pattern; rewind the file first when asked.
    WriteChunk { rewind: bool },
    /// Read one chunk; rewind the file first when asked.
    ReadChunk { rewind: bool },
    /// Nothing to do.
    Idle,
}

/// The disk lane's state.
pub struct DiskTortureTest {
    /// Path of the test file, deleted by the caller on stop.
    pub test_path: String,
    pub chunk_index: usize,
    pub total_chunks: usize,
    /// Failed operations and chunks read back wrong; never decreases.
    pub errors: u64,
    pub bytes_written: u64,
    pub bytes_read: u64,
    /// Time spent in file operations, in nanoseconds.
    pub io_time_ns: u64,
    pub test_size_mb: u64,
    pub phase: DiskPhase,
    pub stop_requested: bool,
}

/// What the dashboard shows of the disk lane; speeds in thousandths of a
/// megabyte per second.
pub struct DiskMetrics {
    pub load_pct: u64,
    pub errors: u64,
    pub progress_pct: u64,
    pub write_speed_mb_s: u64,
    pub read_speed_mb_s: u64,
    pub status: String,
}

/// `a + b`, or `u64::MAX` when that does not fit.
pub open spec fn sat_add(a: nat, b: nat) -> nat {
    if a + b > u64::MAX { u64::MAX as nat } else { a + b }
}

fn saturating_sum(a: u64, b: u64) -> (r: u64)
    ensures
        r == sat_add(a as nat, b as nat),
{
    if a > u64::MAX - b { u64::MAX } else { a + b }
}

/// Speed in thousandths of a megabyte per second for `bytes` moved while
/// `nanos` nanoseconds were spent in file operations (rounded down, at most
/// `u64::MAX`); zero when no time was spent.
pub open spec fn mb_speed_thousandths(bytes: nat, nanos: nat) -> nat {
    if nanos == 0 {
        0
    } else {
        let q = bytes * 1_000_000_000_000 / (1_048_576 * nanos);
        if q > u64::MAX { u64::MAX as nat } else { q }
    }
}

/// Computes a disk lane speed in thousandths of a megabyte per second.
pub fn mb_per_sec_thousandths(bytes: u64, nanos: u64) -> (r: u64)
    ensures
        r == mb_speed_thousandths(bytes as nat, nanos as nat),
{
    if nanos == 0 {
        0
    } else {
        assert((bytes as int) * 1_000_000_000_000 <= u64::MAX as int * 1_000_000_000_000) by (nonlinear_arith)
            requires bytes <= u64::MAX;
        assert(1_048_576 * (nanos as int) <= 1_048_576 * (u64::MAX as int)) by (nonlinear_arith)
            requires nanos <= u64::MAX;
        let num = (bytes as u128) * 1_000_000_000_000u128;
        let den = 1_048_576u128 * (nanos as u128);
        let q = num / den;
        if q > u64::MAX as u128 { u64::MAX } else { q as u64 }
    }
}

impl DiskTortureTest {
    /// The lane's invariant: the chunk index stays within the pass.
    pub open spec fn wf(&self) -> bool {
        self.chunk_index <= self.total_chunks
    }

    /// The state after `stop`: done.
    pub open spec fn after_stop(self) -> DiskTortureTest {
        DiskTortureTest { phase: DiskPhase::Done, stop_requested: true, ..self }
    }

    /// A fresh lane for a 10 MB test file at `test_path`.
    pub fn new(test_path: String) -> (r: DiskTortureTest)
        ensures
            r.wf(),
            r.test_path == test_path,
            r.phase == DiskPhase::CreateFile,
            r.test_size_mb == 10,
            r.errors == 0 && r.bytes_written == 0 && r.bytes_read == 0 && r.io_time_ns == 0,
            !r.stop_requested,
    {
        DiskTortureTest {
            test_path,
            chunk_index: 0,
            total_chunks: 0,
            errors: 0,
            bytes_written: 0,
            bytes_read: 0,
            io_time_ns: 0,
            test_size_mb: 10,
            phase: DiskPhase::CreateFile,
            stop_requested: false,
        }
    }

    /// The operation the next slice performs.
    pub open spec fn next_action_spec(&self) -> DiskAction {
        match self.phase {
            DiskPhase::CreateFile => DiskAction::CreateFile,
            DiskPhase::Write => if self.chunk_index < self.total_chunks { DiskAction::WriteChunk { rewind: self.chunk_index == 0 } } else { DiskAction::Idle },
            DiskPhase::Read => if self.chunk_index < self.total_chunks { DiskAction::ReadChunk { rewind: self.chunk_index == 0 } } else { DiskAction::Idle },
            DiskPhase::Done => DiskAction::Idle,
        }
    }

    /// Asks for the next operation.
    pub fn next_action(&self) -> (r: DiskAction)
        ensures
            r == self.next_action_spec(),
    {
        match self.phase {
            DiskPhase::CreateFile => DiskAction::CreateFile,
            DiskPhase::Write => if self.chunk_index < self.total_chunks { DiskAction::WriteChunk { rewind: self.chunk_index == 0 } } else { DiskAction::Idle },
            DiskPhase::Read => if self.chunk_index < self.total_chunks { DiskAction::ReadChunk { rewind: self.chunk_index == 0 } } else { DiskAction::Idle },
            DiskPhase::Done => DiskAction::Idle,
        }
    }

    /// The test file was created (or could not be): write one chunk per
    /// megabyte, or give up.
    pub fn file_created(&mut self, ok: bool)
        requires
            old(self).wf(),
            old(self).phase is CreateFile,
        ensures
            final(self).wf(),
            final(self).errors == old(self).errors,
            ok ==> final(self).phase is Write && final(self).chunk_index == 0
                && final(self).total_chunks == if old(self).test_size_mb > usize::MAX { usize::MAX as nat } else { old(self).test_size_mb as nat },
            !ok ==> final(self).phase is Done,
    {
        if ok {
            self.chunk_index = 0;
            self.total_chunks = if self.test_size_mb > usize::MAX as u64 { usize::MAX } else { self.test_size_mb as usize };
            self.phase = DiskPhase::Write;
        } else {
            self.phase = DiskPhase::Done;
        }
    }

    /// One chunk write finished, successfully or not, after `io_nanos`
    /// nanoseconds; a failed write counts as an error. After the last chunk
    /// the reading pass begins.
    pub fn chunk_written(&mut self, ok: bool, io_nanos: u64)
        requires
            old(self).wf(),
            old(self).phase is Write,
            old(self).chunk_index < old(self).total_chunks,
        ensures
            final(self).wf(),
            final(self).io_time_ns == sat_add(old(self).io_time_ns as nat, io_nanos as nat),
            final(self).bytes_written == if ok { sat_add(old(self).bytes_written as nat, DISK_CHUNK_BYTES as nat) } else { old(self).bytes_written as nat },
            final(self).errors == if ok { old(self).errors as nat } else { sat_add(old(self).errors as nat, 1) },
            final(self).bytes_read == old(self).bytes_read,
            old(self).chunk_index + 1 < old(self).total_chunks ==> final(self).phase is Write && final(self).chunk_index == old(self).chunk_index + 1,
            old(self).chunk_index + 1 >= old(self).total_chunks ==> final(self).phase is Read && final(self).chunk_index == 0,
    {
        self.io_time_ns = saturating_sum(self.io_time_ns, io_nanos);
        if ok {
            self.bytes_written = saturating_sum(self.bytes_written, DISK_CHUNK_BYTES as u64);
        } else {
            self.errors = saturating_sum(self.errors, 1);
        }
        self.chunk_index = self.chunk_index + 1;
        if self.chunk_index >= self.total_chunks {
            self.chunk_index = 0;
            self.phase = DiskPhase::Read;
        }
    }

    /// One chunk read finished after `io_nanos` nanoseconds, with the bytes
    /// read, or none when the read failed. A failed read, or a chunk that
    /// differs from the pattern anywhere, counts as one error. After the last
    /// chunk a new writing pass begins.
    pub fn chunk_read(&mut self, data: Option<&[u8]>, io_nanos: u64)
        requires
            old(self).wf(),
            old(self).phase is Read,
            old(self).chunk_index < old(self).total_chunks,
        ensures
            final(self).wf(),
            final(self).io_time_ns == sat_add(old(self).io_time_ns as nat, io_nanos as nat),
            final(self).bytes_read == if data is Some { sat_add(old(self).bytes_read as nat, DISK_CHUNK_BYTES as nat) } else { old(self).bytes_read as nat },
            final(self).errors == match data {
                Some(d) => if byte_mismatches(d@, DISK_PATTERN) > 0 { sat_add(old(self).errors as nat, 1) } else { old(self).errors as nat },
                None => sat_add(old(self).errors as nat, 1),
            },
            final(self).bytes_written == old(self).bytes_written,
            old(self).chunk_index + 1 < old(self).total_chunks ==> final(self).phase is Read && final(self).chunk_index == old(self).chunk_index + 1,
            old(self).chunk_index + 1 >= old(self).total_chunks ==> final(self).phase is Write && final(self).chunk_index == 0,
    {
        self.io_time_ns = saturating_sum(self.io_time_ns, io_nanos);
        match data {
            Some(d) => {
                if count_bad_bytes(d, DISK_PATTERN) > 0 {
                    self.errors = saturating_sum(self.errors, 1);
                }
                self.bytes_read = saturating_sum(self.bytes_read, DISK_CHUNK_BYTES as u64);
            },
            None => {
                self.errors = saturating_sum(self.errors, 1);
            },
        }
        self.chunk_index = self.chunk_index + 1;
        if self.chunk_index >= self.total_chunks {
            self.chunk_index = 0;
            self.phase = DiskPhase::Write;
        }
    }

    /// Progress through the current pass, in percent.
    pub open spec fn progress_spec(&self) -> nat {
        if self.total_chunks > 0 { self.chunk_index as nat * 100 / (self.total_chunks as nat) } else { 0 }
    }

    /// The status line for each stage.
    pub open spec fn status_spec(&self) -> Seq<char> {
        match self.phase {
            DiskPhase::CreateFile => "Creating file..."@,
            DiskPhase::Write => "Writing "@ + decimal(self.progress_spec()) + "%"@,
            DiskPhase::Read => "Reading "@ + decimal(self.progress_spec()) + "%"@,
            DiskPhase::Done => "Complete"@,
        }
    }

    /// The load shown for each stage once the file exists.
    pub open spec fn load_spec(&self) -> nat {
        match self.phase {
            DiskPhase::CreateFile => 0,
            DiskPhase::Write => 75,
            DiskPhase::Read => 70,
            DiskPhase::Done => 0,
        }
    }

    /// A snapshot for the dashboard.
    pub fn get_metrics(&self) -> (r: DiskMetrics)
        requires
            self.wf(),
        ensures
            r.errors == self.errors,
            r.load_pct == self.load_spec(),
            r.progress_pct == self.progress_spec(),
            r.write_speed_mb_s == mb_speed_thousandths(self.bytes_written as nat, self.io_time_ns as nat),
            r.read_speed_mb_s == mb_speed_thousandths(self.bytes_read as nat, self.io_time_ns as nat),
            r.status@ == self.status_spec(),
    {
        let progress: u64 = if self.total_chunks > 0 {
            assert((self.chunk_index as nat) * 100 / (self.total_chunks as nat) <= 100) by (nonlinear_arith)
                requires self.chunk_index <= self.total_chunks, self.total_chunks > 0;
            ((self.chunk_index as u128) * 100 / (self.total_chunks as u128)) as u64
        } else {
            0
        };
        let status = match self.phase {
            DiskPhase::CreateFile => String::from_str("Creating file..."),
            DiskPhase::Write => crate::health::join3("Writing ", decimal_string(progress).as_str(), "%"),
            DiskPhase::Read => crate::health::join3("Reading ", decimal_string(progress).as_str(), "%"),
            DiskPhase::Done => String::from_str("Complete"),
        };
        let load: u64 = match self.phase {
            DiskPhase::CreateFile => 0,
            DiskPhase::Write => 75,
            DiskPhase::Read => 70,
            DiskPhase::Done => 0,
        };
        DiskMetrics {
            load_pct: load,
            errors: self.errors,
            progress_pct: progress,
            write_speed_mb_s: mb_per_sec_thousandths(self.bytes_written, self.io_time_ns),
            read_speed_mb_s: mb_per_sec_thousandths(self.bytes_read, self.io_time_ns),
            status,
        }
    }

    /// Stops the lane; the caller then deletes the test file. Calling it
    /// again changes nothing.
    pub fn stop(&mut self)
        requires
            old(self).wf(),
        ensures
            final(self).wf(),
            *final(self) == old(self).after_stop(),
    {
        self.stop_requested = true;
        self.phase = DiskPhase::Done;
    }

    /// The lane's final report.
    pub fn get_result(&self) -> (r: DiskPartialResult)
        ensures
            r.write_speed_mb_s == mb_speed_thousandths(self.bytes_written as nat, self.io_time_ns as nat),
            r.read_speed_mb_s == mb_speed_thousandths(self.bytes_read as nat, self.io_time_ns as nat),
            r.status is Some,
            (r.healthy, r.status->0@) == disk_lane_outcome(r.write_speed_mb_s as nat, r.read_speed_mb_s as nat, self.errors as nat),
    {
        let w = mb_per_sec_thousandths(self.bytes_written, self.io_time_ns);
        let r = mb_per_sec_thousandths(self.bytes_read, self.io_time_ns);
        disk_partial_result(w, r, self.errors)
    }
}

/// Stopping the disk lane twice leaves it as stopping it once does.
pub proof fn lemma_disk_stop_idempotent(lane: DiskTortureTest)
    ensures
        lane.after_stop().after_stop() == lane.after_stop(),
{
}

} // verus!

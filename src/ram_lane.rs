//! The RAM lane of the torture test: a buffer written with the pattern and
//! checked back one chunk per slice, over and over until stopped.
use vstd::prelude::*;
use crate::ram::{RAM_PATTERN, all_equal, count_mismatches, fill_pattern, lemma_uniform_has_no_mismatch,
    mismatch_count, tenths_gb, torture_test_size, bytes_to_tenths_gb, torture_test_bytes};
use crate::torture::{RamPartialResult, ram_partial_result, ram_lane_outcome};
use crate::numfmt::{decimal, decimal_string};
use crate::disk_lane::sat_add;

verus! {

/// Words handled per slice.
pub const RAM_CHUNK_WORDS: usize = 1024 * 1024;

/// Stages of the RAM lane.
#[derive(Clone, Copy, Debug, PartialEq, Eq, Structural)]
pub enum RamPhase {
    Alloc,
    Write,
    Verify,
    Done,
}

/// Number of chunks that cover `n` words.
pub open spec fn chunks_for(n: nat) -> nat {
    ((n + RAM_CHUNK_WORDS - 1) / (RAM_CHUNK_WORDS as int)) as nat
}

/// Words covered by the first `k` chunks of an `n`-word buffer.
pub open spec fn covered(k: nat, n: nat) -> nat {
    if k * RAM_CHUNK_WORDS as nat >= n { n } else { k * RAM_CHUNK_WORDS as nat }
}

proof fn lemma_chunk_bounds(k: nat, n: nat)
    requires
        k < chunks_for(n),
    ensures
        k * (RAM_CHUNK_WORDS as nat) < n,
        (k + 1) >= chunks_for(n) ==> (k + 1) * (RAM_CHUNK_WORDS as nat) >= n,
{
    assert(k * 1048576 < n) by (nonlinear_arith)
        requires k < (n + 1048575) / 1048576;
    assert((k + 1) >= (n + 1048575) / 1048576 ==> (k + 1) * 1048576 >= n) by (nonlinear_arith);
}

/// First word of chunk `k`.
pub open spec fn chunk_start(k: nat) -> nat {
    k * RAM_CHUNK_WORDS as nat
}

/// The chunk index after chunk `k` of a pass of `total` chunks.
pub open spec fn next_chunk(k: nat, total: nat) -> nat {
    if k + 1 >= total { 0 } else { k + 1 }
}

/// The RAM lane's state.
pub struct RamTortureTest {
    pub buffer: Option<Vec<u64>>,
    pub chunk_index: usize,
    pub total_chunks: usize,
    /// Mismatched words found so far; never decreases.
    pub errors: u64,
    /// Amount under test, in tenths of a gigabyte.
    pub tested_gb: u64,
    pub phase: RamPhase,
    pub stop_requested: bool,
}

/// What the dashboard shows of the RAM lane.
pub struct RamMetrics {
    pub load_pct: u64,
    pub errors: u64,
    pub progress_pct: u64,
    pub status: String,
}

impl RamTortureTest {
    /// The lane's invariant: a buffer exists exactly while writing or
    /// checking, the chunk index stays within the buffer's chunks, the
    /// words written so far in a writing pass hold the pattern, and during
    /// a checking pass the whole buffer does.
    pub open spec fn wf(&self) -> bool {
        &&& (self.phase is Write || self.phase is Verify) <==> self.buffer is Some
        &&& self.chunk_index <= self.total_chunks
        &&& self.buffer is Some ==> self.total_chunks == chunks_for(self.buffer->0@.len())
        &&& self.phase is Write ==> forall|i: int|
            0 <= i < covered(self.chunk_index as nat, self.buffer->0@.len()) ==> #[trigger] self.buffer->0@[i] == RAM_PATTERN
        &&& self.phase is Verify ==> all_equal(self.buffer->0@, RAM_PATTERN)
    }

    /// One writing slice: with chunks left in the pass, the next chunk of
    /// the buffer takes the pattern, the rest of the buffer is kept, the
    /// index moves on, and after the last chunk the checking pass begins;
    /// with none left, nothing changes.
    pub open spec fn write_step(self, next: RamTortureTest) -> bool {
        let ci = self.chunk_index as nat;
        let total = self.total_chunks as nat;
        let n = self.buffer->0@.len();
        if ci >= total {
            next == self
        } else {
            &&& next.chunk_index == next_chunk(ci, total)
            &&& next.phase == if ci + 1 >= total { RamPhase::Verify } else { RamPhase::Write }
            &&& next.buffer is Some
            &&& next.buffer->0@.len() == n
            &&& forall|i: int| chunk_start(ci) <= i < covered(ci + 1, n) ==> #[trigger] next.buffer->0@[i] == RAM_PATTERN
            &&& forall|i: int| 0 <= i < n && !(chunk_start(ci) <= i < covered(ci + 1, n))
                ==> #[trigger] next.buffer->0@[i] == self.buffer->0@[i]
            &&& next.errors == self.errors
            &&& next.total_chunks == self.total_chunks
            &&& next.tested_gb == self.tested_gb
            &&& next.stop_requested == self.stop_requested
        }
    }

    /// One checking slice: with chunks left in the pass, the mismatches of
    /// the next chunk are added to the error count (saturating), the buffer
    /// is kept, the index moves on, and after the last chunk a new writing
    /// pass begins; with none left, nothing changes.
    pub open spec fn verify_step(self, next: RamTortureTest) -> bool {
        let ci = self.chunk_index as nat;
        let total = self.total_chunks as nat;
        let n = self.buffer->0@.len();
        if ci >= total {
            next == self
        } else {
            &&& next.chunk_index == next_chunk(ci, total)
            &&& next.phase == if ci + 1 >= total { RamPhase::Write } else { RamPhase::Verify }
            &&& next.buffer == self.buffer
            &&& next.errors == sat_add(
                self.errors as nat,
                mismatch_count(self.buffer->0@.subrange(chunk_start(ci) as int, covered(ci + 1, n) as int), RAM_PATTERN),
            )
            &&& next.total_chunks == self.total_chunks
            &&& next.tested_gb == self.tested_gb
            &&& next.stop_requested == self.stop_requested
        }
    }

    /// The allocating slice: half of the available memory, at most 4 GB, is
    /// taken for a fresh writing pass; under 0.1 GB the lane is done.
    pub open spec fn alloc_step(self, next: RamTortureTest, available_bytes: nat) -> bool {
        let bytes = torture_test_bytes(available_bytes);
        &&& next.errors == self.errors
        &&& next.stop_requested == self.stop_requested
        &&& bytes_to_tenths_gb(bytes) < 1 ==> next.phase is Done
        &&& bytes_to_tenths_gb(bytes) >= 1 ==> {
            &&& next.phase is Write
            &&& next.chunk_index == 0
            &&& next.tested_gb == bytes_to_tenths_gb(bytes)
            &&& next.buffer is Some
            &&& next.buffer->0@.len() == bytes / 8
            &&& next.total_chunks == chunks_for(bytes / 8)
        }
    }

    /// The state after `stop`: done, with the buffer released.
    pub open spec fn after_stop(self) -> RamTortureTest {
        RamTortureTest { buffer: None, phase: RamPhase::Done, stop_requested: true, ..self }
    }

    /// A fresh lane, waiting to allocate.
    pub fn new() -> (r: RamTortureTest)
        ensures
            r.wf(),
            r.phase == RamPhase::Alloc,
            r.errors == 0,
            r.tested_gb == 0,
            !r.stop_requested,
    {
        RamTortureTest {
            buffer: None,
            chunk_index: 0,
            total_chunks: 0,
            errors: 0,
            tested_gb: 0,
            phase: RamPhase::Alloc,
            stop_requested: false,
        }
    }

    /// The lane needs the amount of available memory for its next slice.
    pub fn needs_memory_probe(&self) -> (r: bool)
        ensures
            r == (self.phase == RamPhase::Alloc),
    {
        self.phase == RamPhase::Alloc
    }

    /// Runs one slice of work: allocate (given the available memory in
    /// bytes), write one chunk, or check one chunk.
    pub fn run_chunk(&mut self, chunk_ms: u64, available_bytes: u64)
        requires
            old(self).wf(),
        ensures
            final(self).wf(),
            final(self).errors >= old(self).errors,
            old(self).phase is Verify ==> final(self).errors == old(self).errors,
            match old(self).phase {
                RamPhase::Alloc => old(self).alloc_step(*final(self), available_bytes as nat),
                RamPhase::Write => old(self).write_step(*final(self)),
                RamPhase::Verify => old(self).verify_step(*final(self)),
                RamPhase::Done => *final(self) == *old(self),
            },
    {
        match self.phase {
            RamPhase::Alloc => self.allocate_buffer(available_bytes),
            RamPhase::Write => self.write_chunk(),
            RamPhase::Verify => self.verify_chunk(),
            RamPhase::Done => {},
        }
    }

    /// Allocates half of the available memory, at most 4 GB; gives up
    /// (done) when that is under 0.1 GB.
    pub fn allocate_buffer(&mut self, available_bytes: u64)
        requires
            old(self).wf(),
            old(self).phase is Alloc,
        ensures
            final(self).wf(),
            old(self).alloc_step(*final(self), available_bytes as nat),
    {
        let bytes = torture_test_size(available_bytes);
        let tenths = tenths_gb(bytes);
        if tenths < 1 {
            self.phase = RamPhase::Done;
            return;
        }
        let n = (bytes / 8) as usize;
        let buffer: Vec<u64> = vec![0u64; n];
        let total = n / RAM_CHUNK_WORDS + if n % RAM_CHUNK_WORDS != 0 { 1 } else { 0 };
        assert(total == chunks_for(n as nat)) by (nonlinear_arith)
            requires total == n / 1048576 + if n % 1048576 != 0 { 1int } else { 0int };
        self.buffer = Some(buffer);
        self.tested_gb = tenths;
        self.chunk_index = 0;
        self.total_chunks = total;
        self.phase = RamPhase::Write;
    }

    /// Writes the pattern into the next chunk; after the last one, the
    /// checking pass begins.
    pub fn write_chunk(&mut self)
        requires
            old(self).wf(),
            old(self).phase is Write,
        ensures
            final(self).wf(),
            old(self).write_step(*final(self)),
    {
        if self.chunk_index >= self.total_chunks {
            return;
        }
        let ci = self.chunk_index;
        let mut buffer = self.buffer.take().unwrap();
        let len = buffer.len();
        proof {
            lemma_chunk_bounds(ci as nat, len as nat);
        }
        let start = ci * RAM_CHUNK_WORDS;
        let end = if len - start > RAM_CHUNK_WORDS { start + RAM_CHUNK_WORDS } else { len };
        let ghost before = buffer@;
        fill_pattern(&mut buffer, start, end, RAM_PATTERN);
        proof {
            assert forall|i: int| 0 <= i < covered((ci + 1) as nat, len as nat) implies #[trigger] buffer@[i] == RAM_PATTERN by {
                if i >= start {
                } else {
                    assert(before[i] == RAM_PATTERN);
                }
            }
        }
        self.buffer = Some(buffer);
        self.chunk_index = ci + 1;
        if self.chunk_index >= self.total_chunks {
            proof {
                assert(covered((ci + 1) as nat, len as nat) == len);
                assert(all_equal(self.buffer->0@, RAM_PATTERN));
            }
            self.chunk_index = 0;
            self.phase = RamPhase::Verify;
        }
    }

    /// Checks the next chunk against the pattern and adds its mismatches to
    /// the error count; after the last one, a new writing pass begins.
    pub fn verify_chunk(&mut self)
        requires
            old(self).wf(),
            old(self).phase is Verify,
        ensures
            final(self).wf(),
            final(self).errors == old(self).errors,
            old(self).verify_step(*final(self)),
    {
        if self.chunk_index >= self.total_chunks {
            return;
        }
        let ci = self.chunk_index;
        let found = match &self.buffer {
            Some(buffer) => {
                let len = buffer.len();
                proof {
                    lemma_chunk_bounds(ci as nat, len as nat);
                }
                let start = ci * RAM_CHUNK_WORDS;
                let end = if len - start > RAM_CHUNK_WORDS { start + RAM_CHUNK_WORDS } else { len };
                let found = count_mismatches(buffer.as_slice(), start, end, RAM_PATTERN);
                proof {
                    let part = buffer@.subrange(start as int, end as int);
                    assert(all_equal(part, RAM_PATTERN));
                    lemma_uniform_has_no_mismatch(part, RAM_PATTERN);
                }
                found
            },
            None => 0,
        };
        self.errors = if self.errors > u64::MAX - found { u64::MAX } else { self.errors + found };
        self.chunk_index = ci + 1;
        if self.chunk_index >= self.total_chunks {
            self.chunk_index = 0;
            self.phase = RamPhase::Write;
        }
    }

    /// Progress through the current pass, in percent.
    pub open spec fn progress_spec(&self) -> nat {
        if self.total_chunks > 0 { self.chunk_index as nat * 100 / (self.total_chunks as nat) } else { 0 }
    }

    /// The load shown for each stage while a buffer is held.
    pub open spec fn load_spec(&self) -> nat {
        if self.buffer is Some {
            match self.phase {
                RamPhase::Alloc => 40,
                RamPhase::Write => 90,
                RamPhase::Verify => 85,
                RamPhase::Done => 0,
            }
        } else {
            0
        }
    }

    /// The status line for each stage.
    pub open spec fn status_spec(&self) -> Seq<char> {
        match self.phase {
            RamPhase::Alloc => "Allocating..."@,
            RamPhase::Write => "Writing "@ + decimal(self.progress_spec()) + "%"@,
            RamPhase::Verify => "Verifying "@ + decimal(self.progress_spec()) + "%"@,
            RamPhase::Done => "Complete"@,
        }
    }

    /// A snapshot for the dashboard.
    pub fn get_metrics(&self) -> (r: RamMetrics)
        requires
            self.wf(),
        ensures
            r.errors == self.errors,
            r.load_pct == self.load_spec(),
            r.progress_pct == self.progress_spec(),
            r.status@ == self.status_spec(),
    {
        let progress: u64 = if self.total_chunks > 0 {
            assert((self.chunk_index as nat) * 100 / (self.total_chunks as nat) <= 100) by (nonlinear_arith)
                requires self.chunk_index <= self.total_chunks, self.total_chunks > 0;
            ((self.chunk_index as u128) * 100 / (self.total_chunks as u128)) as u64
        } else {
            0
        };
        let status = match self.phase {
            RamPhase::Alloc => String::from_str("Allocating..."),
            RamPhase::Write => crate::health::join3("Writing ", decimal_string(progress).as_str(), "%"),
            RamPhase::Verify => crate::health::join3("Verifying ", decimal_string(progress).as_str(), "%"),
            RamPhase::Done => String::from_str("Complete"),
        };
        let load: u64 = if self.buffer.is_some() {
            match self.phase {
                RamPhase::Alloc => 40,
                RamPhase::Write => 90,
                RamPhase::Verify => 85,
                RamPhase::Done => 0,
            }
        } else {
            0
        };
        RamMetrics { load_pct: load, errors: self.errors, progress_pct: progress, status }
    }

    /// Stops the lane and releases its buffer; calling it again changes
    /// nothing.
    pub fn stop(&mut self)
        requires
            old(self).wf(),
        ensures
            final(self).wf(),
            *final(self) == old(self).after_stop(),
    {
        self.stop_requested = true;
        self.phase = RamPhase::Done;
        self.buffer = None;
    }

    /// The lane's final report.
    pub fn get_result(&self) -> (r: RamPartialResult)
        ensures
            r.tested_gb == self.tested_gb,
            r.errors == self.errors,
            r.status is Some,
            (r.healthy, r.status->0@) == ram_lane_outcome(self.tested_gb as nat, self.errors as nat),
    {
        ram_partial_result(self.tested_gb, self.errors)
    }
}

/// Stopping the RAM lane twice leaves it as stopping it once does.
pub proof fn lemma_ram_stop_idempotent(lane: RamTortureTest)
    ensures
        lane.after_stop().after_stop() == lane.after_stop(),
{
}

/// A checking pass over a buffer the lane itself wrote finds nothing: in
/// the checking stage every word holds the pattern, so no chunk of it has
/// a mismatch.
pub proof fn lemma_ram_lane_round_trip(lane: RamTortureTest, start: int, end: int)
    requires
        lane.wf(),
        lane.phase is Verify,
        0 <= start <= end <= lane.buffer->0@.len(),
    ensures
        mismatch_count(lane.buffer->0@.subrange(start, end), RAM_PATTERN) == 0,
{
    let part = lane.buffer->0@.subrange(start, end);
    assert(all_equal(part, RAM_PATTERN));
    lemma_uniform_has_no_mismatch(part, RAM_PATTERN);
}

} // verus!

//! Storage workload: sequential and random read/write kernels against a
//! scratch file, measuring throughput, IOPS and per-operation latency.
//!
//! The file calls themselves are performed by the embedding program; this
//! module holds everything that can be decided and derived without touching
//! a file: the per-phase accounting state machines (which operation comes
//! next, at which offset, and when a phase is done), the deterministic
//! random-offset sequence, and the exact derivation of every reported
//! metric. Sequential write must run before sequential read and before the
//! random phases, which rely on the scratch file already having its full size.

use vstd::prelude::*;
use vstd::arithmetic::div_mod::{lemma_fundamental_div_mod, lemma_mod_bound};
use crate::lcg::{lcg_next, lcg_next_spec};
use crate::rates::{
    clamp_u64, mb_per_second, mb_per_second_spec, mean_or_zero, per_second, per_second_spec,
    sat_mul, BYTES_PER_MEGABYTE,
};

verus! {

/// Cap on random-I/O operations, independent of the configured file size,
/// to keep the random tests' duration bounded.
pub const RANDOM_IO_MAX_OPS: u64 = 1000;

/// Bytes per kilobyte of configured block size.
pub const BYTES_PER_KILOBYTE: u64 = 1024;

/// Metrics of one storage phase: throughput in whole MB/s, operations per
/// second, and mean per-operation latency in nanoseconds.
#[derive(Debug, Clone, PartialEq, Eq, Structural)]
pub struct StorageMetrics {
    pub throughput: u64,
    pub iops: u64,
    pub latency: u64,
}

/// Configuration of one storage workload run: file size in megabytes, block
/// size in kilobytes, and an optional explicit scratch-file path (the
/// platform temporary directory is used when absent).
#[derive(Debug, Clone, PartialEq)]
pub struct StorageTestConfig {
    pub file_size: u64,
    pub block_size: usize,
    pub test_duration: u64,
    pub test_file_path: Option<String>,
}

/// Result of one storage workload run; `total_data_processed` is in
/// megabytes.
#[derive(Debug, Clone, PartialEq, Eq, Structural)]
pub struct StorageTestResult {
    pub sequential_read: StorageMetrics,
    pub sequential_write: StorageMetrics,
    pub random_read: StorageMetrics,
    pub random_write: StorageMetrics,
    pub test_duration: u64,
    pub total_data_processed: u64,
}

pub struct StorageBenchmark {
    pub config: StorageTestConfig,
}

/// One phase of a storage workload run.
#[derive(Debug, Clone, Copy, PartialEq, Eq, Structural)]
pub enum StoragePhase {
    SequentialWrite,
    SequentialRead,
    RandomWrite,
    RandomRead,
}

/// Which phases of a storage run have completed.
pub struct StorageRunPlan {
    pub seq_write_done: bool,
    pub seq_read_done: bool,
    pub random_write_done: bool,
    pub random_read_done: bool,
}

/// The next phase to run: the first not-yet-done phase in the fixed order
/// sequential write, sequential read, random write, random read — or none
/// once all four ran. The order matters: every later phase reads a file
/// that only the sequential write creates at its full size.
pub open spec fn spec_next_storage_phase(p: StorageRunPlan) -> Option<StoragePhase> {
    if !p.seq_write_done {
        Some(StoragePhase::SequentialWrite)
    } else if !p.seq_read_done {
        Some(StoragePhase::SequentialRead)
    } else if !p.random_write_done {
        Some(StoragePhase::RandomWrite)
    } else if !p.random_read_done {
        Some(StoragePhase::RandomRead)
    } else {
        None
    }
}

/// The plan after one phase completed.
pub open spec fn spec_with_phase_done(p: StorageRunPlan, phase: StoragePhase) -> StorageRunPlan {
    match phase {
        StoragePhase::SequentialWrite => StorageRunPlan { seq_write_done: true, ..p },
        StoragePhase::SequentialRead => StorageRunPlan { seq_read_done: true, ..p },
        StoragePhase::RandomWrite => StorageRunPlan { random_write_done: true, ..p },
        StoragePhase::RandomRead => StorageRunPlan { random_read_done: true, ..p },
    }
}

impl StorageRunPlan {
    /// A fresh plan: nothing has run yet.
    pub fn new() -> (r: StorageRunPlan)
        ensures
            !r.seq_write_done,
            !r.seq_read_done,
            !r.random_write_done,
            !r.random_read_done,
    {
        StorageRunPlan {
            seq_write_done: false,
            seq_read_done: false,
            random_write_done: false,
            random_read_done: false,
        }
    }

    /// The next phase to run, if any.
    pub fn next_phase(&self) -> (r: Option<StoragePhase>)
        ensures
            r == spec_next_storage_phase(*self),
    {
        if !self.seq_write_done {
            Some(StoragePhase::SequentialWrite)
        } else if !self.seq_read_done {
            Some(StoragePhase::SequentialRead)
        } else if !self.random_write_done {
            Some(StoragePhase::RandomWrite)
        } else if !self.random_read_done {
            Some(StoragePhase::RandomRead)
        } else {
            None
        }
    }

    /// Records one phase as completed.
    pub fn record_done(&mut self, phase: StoragePhase)
        ensures
            *final(self) == spec_with_phase_done(*old(self), phase),
    {
        match phase {
            StoragePhase::SequentialWrite => {
                self.seq_write_done = true;
            },
            StoragePhase::SequentialRead => {
                self.seq_read_done = true;
            },
            StoragePhase::RandomWrite => {
                self.random_write_done = true;
            },
            StoragePhase::RandomRead => {
                self.random_read_done = true;
            },
        }
    }
}

/// Sequential write comes first: the plan never offers another phase until
/// the sequential write has completed, so the sequential read and both
/// random phases always find the scratch file at its full size.
pub proof fn lemma_sequential_write_first(p: StorageRunPlan)
    ensures
        (spec_next_storage_phase(p) is Some && spec_next_storage_phase(p)->0
            != StoragePhase::SequentialWrite) ==> p.seq_write_done,
{
}

/// Derives one phase's metrics from its raw counters.
pub fn metrics_from_counts(bytes: u64, ops: u64, latency_sum_nanos: u64, elapsed_nanos: u64) -> (r:
    StorageMetrics)
    requires
        elapsed_nanos >= 1,
    ensures
        r.throughput == mb_per_second_spec(bytes as int, elapsed_nanos as int),
        r.iops == per_second_spec(ops as int, elapsed_nanos as int),
        ops > 0 ==> r.latency == latency_sum_nanos / ops,
        ops == 0 ==> r.latency == 0,
{
    StorageMetrics {
        throughput: mb_per_second(bytes, elapsed_nanos),
        iops: per_second(ops, elapsed_nanos),
        latency: mean_or_zero(latency_sum_nanos, ops),
    }
}

/// Accounting for the sequential-write phase: fixed-size blocks are written
/// until the configured file size is reached.
pub struct SeqWriteRun {
    pub file_size_bytes: u64,
    pub block_size_bytes: u64,
    pub written: u64,
    pub ops: u64,
    pub latency_sum_nanos: u64,
}

impl SeqWriteRun {
    /// The accounting is consistent: what was written is exactly the blocks
    /// counted.
    pub open spec fn wf(&self) -> bool {
        &&& self.block_size_bytes >= 1
        &&& self.file_size_bytes + self.block_size_bytes <= u64::MAX
        &&& self.written == self.ops * self.block_size_bytes
        &&& self.written <= self.file_size_bytes + self.block_size_bytes
    }

    pub fn new(file_size_bytes: u64, block_size_bytes: u64) -> (r: SeqWriteRun)
        requires
            block_size_bytes >= 1,
            file_size_bytes + block_size_bytes <= u64::MAX,
        ensures
            r.wf(),
            r.file_size_bytes == file_size_bytes,
            r.block_size_bytes == block_size_bytes,
            r.written == 0,
            r.ops == 0,
            r.latency_sum_nanos == 0,
    {
        SeqWriteRun {
            file_size_bytes,
            block_size_bytes,
            written: 0,
            ops: 0,
            latency_sum_nanos: 0,
        }
    }

    /// Whether another block still needs to be written.
    pub fn wants_more(&self) -> (r: bool)
        ensures
            r == (self.written < self.file_size_bytes),
    {
        self.written < self.file_size_bytes
    }

    /// Records one completed block write and its latency.
    pub fn record_write(&mut self, latency_nanos: u64)
        requires
            old(self).wf(),
            old(self).written < old(self).file_size_bytes,
        ensures
            final(self).wf(),
            final(self).written == old(self).written + old(self).block_size_bytes,
            final(self).ops == old(self).ops + 1,
            final(self).latency_sum_nanos == clamp_u64(
                old(self).latency_sum_nanos + latency_nanos,
            ),
            final(self).file_size_bytes == old(self).file_size_bytes,
            final(self).block_size_bytes == old(self).block_size_bytes,
    {
        proof {
            assert(self.ops <= self.written) by (nonlinear_arith)
                requires
                    self.written == self.ops * self.block_size_bytes,
                    self.block_size_bytes >= 1,
                    self.ops >= 0,
            ;
            assert((self.ops + 1) * self.block_size_bytes == self.ops * self.block_size_bytes
                + self.block_size_bytes) by (nonlinear_arith);
        }
        self.written = self.written + self.block_size_bytes;
        self.ops = self.ops + 1;
        self.latency_sum_nanos = self.latency_sum_nanos.saturating_add(latency_nanos);
    }

    /// Progress of this phase in hundredths of a percent.
    pub fn progress(&self) -> (r: u32)
        requires
            self.file_size_bytes >= 1,
        ensures
            r <= crate::progress::PROGRESS_DONE,
    {
        crate::clock::progress_fraction(self.written, self.file_size_bytes)
    }

    /// The phase's metrics after `elapsed_nanos` of wall time.
    pub fn metrics(&self, elapsed_nanos: u64) -> (r: StorageMetrics)
        requires
            elapsed_nanos >= 1,
        ensures
            r.throughput == mb_per_second_spec(self.written as int, elapsed_nanos as int),
            r.iops == per_second_spec(self.ops as int, elapsed_nanos as int),
            self.ops > 0 ==> r.latency == self.latency_sum_nanos / self.ops,
            self.ops == 0 ==> r.latency == 0,
    {
        metrics_from_counts(self.written, self.ops, self.latency_sum_nanos, elapsed_nanos)
    }
}

/// Accounting for the sequential-read phase: blocks are read until the file
/// ends; a read of zero bytes is end-of-file.
pub struct SeqReadRun {
    pub bytes_read: u64,
    pub ops: u64,
    pub latency_sum_nanos: u64,
}

impl SeqReadRun {
    pub fn new() -> (r: SeqReadRun)
        ensures
            r.bytes_read == 0,
            r.ops == 0,
            r.latency_sum_nanos == 0,
    {
        SeqReadRun { bytes_read: 0, ops: 0, latency_sum_nanos: 0 }
    }

    /// Records one completed read of `bytes` bytes and its latency;
    /// counters saturate rather than overflow.
    pub fn record_read(&mut self, bytes: u64, latency_nanos: u64)
        ensures
            final(self).bytes_read == clamp_u64(old(self).bytes_read + bytes),
            final(self).ops == clamp_u64(old(self).ops + 1),
            final(self).latency_sum_nanos == clamp_u64(
                old(self).latency_sum_nanos + latency_nanos,
            ),
    {
        self.bytes_read = self.bytes_read.saturating_add(bytes);
        self.ops = self.ops.saturating_add(1);
        self.latency_sum_nanos = self.latency_sum_nanos.saturating_add(latency_nanos);
    }

    /// The phase's metrics; when nothing was read the mean latency is 0
    /// rather than a division error.
    pub fn metrics(&self, elapsed_nanos: u64) -> (r: StorageMetrics)
        requires
            elapsed_nanos >= 1,
        ensures
            r.throughput == mb_per_second_spec(self.bytes_read as int, elapsed_nanos as int),
            r.iops == per_second_spec(self.ops as int, elapsed_nanos as int),
            self.ops > 0 ==> r.latency == self.latency_sum_nanos / self.ops,
            self.ops == 0 ==> r.latency == 0,
    {
        metrics_from_counts(self.bytes_read, self.ops, self.latency_sum_nanos, elapsed_nanos)
    }
}

/// Accounting for one random-I/O phase: at most [`RANDOM_IO_MAX_OPS`]
/// generator-driven block operations at block-aligned offsets inside the
/// already-written file.
pub struct RandomIoRun {
    pub rng_state: u64,
    pub ops_done: u64,
    pub latency_sum_nanos: u64,
    pub file_size_bytes: u64,
    pub block_size_bytes: u64,
    pub block_count: u64,
}

impl RandomIoRun {
    pub open spec fn wf(&self) -> bool {
        &&& self.block_size_bytes >= 1
        &&& self.block_count == self.file_size_bytes / self.block_size_bytes
        &&& self.block_count >= 1
    }

    pub fn new(file_size_bytes: u64, block_size_bytes: u64, seed: u64) -> (r: RandomIoRun)
        requires
            block_size_bytes >= 1,
            file_size_bytes / block_size_bytes >= 1,
        ensures
            r.wf(),
            r.rng_state == seed,
            r.ops_done == 0,
            r.latency_sum_nanos == 0,
            r.file_size_bytes == file_size_bytes,
            r.block_size_bytes == block_size_bytes,
    {
        RandomIoRun {
            rng_state: seed,
            ops_done: 0,
            latency_sum_nanos: 0,
            file_size_bytes,
            block_size_bytes,
            block_count: file_size_bytes / block_size_bytes,
        }
    }

    /// The block-aligned offset of the next operation, or `None` once the
    /// operation cap is reached. Advances the generator; the offset plus one
    /// block always fits in the file.
    pub fn next_offset(&mut self) -> (r: Option<u64>)
        requires
            old(self).wf(),
        ensures
            final(self).wf(),
            final(self).ops_done == old(self).ops_done,
            final(self).latency_sum_nanos == old(self).latency_sum_nanos,
            final(self).file_size_bytes == old(self).file_size_bytes,
            final(self).block_size_bytes == old(self).block_size_bytes,
            old(self).ops_done >= RANDOM_IO_MAX_OPS ==> r is None && final(self).rng_state
                == old(self).rng_state,
            old(self).ops_done < RANDOM_IO_MAX_OPS ==> {
                &&& final(self).rng_state == lcg_next_spec(old(self).rng_state as int)
                &&& r matches Some(off)
                &&& off == ((final(self).rng_state as int) % (old(self).block_count as int))
                    * (old(self).block_size_bytes as int)
                &&& off + old(self).block_size_bytes <= old(self).file_size_bytes
            },
    {
        if self.ops_done >= RANDOM_IO_MAX_OPS {
            return None;
        }
        self.rng_state = lcg_next(self.rng_state);
        let block_index = self.rng_state % self.block_count;
        proof {
            let bc = self.block_count as int;
            let bs = self.block_size_bytes as int;
            let fs = self.file_size_bytes as int;
            lemma_mod_bound(self.rng_state as int, bc);
            lemma_fundamental_div_mod(fs, bs);
            assert(bc * bs <= fs);
            assert((block_index as int) * bs + bs <= bc * bs) by (nonlinear_arith)
                requires
                    (block_index as int) < bc,
                    bs >= 1,
                    block_index >= 0,
            ;
        }
        Some(block_index * self.block_size_bytes)
    }

    /// Records one completed random operation and its latency.
    pub fn record_op(&mut self, latency_nanos: u64)
        requires
            old(self).ops_done < RANDOM_IO_MAX_OPS,
        ensures
            final(self).ops_done == old(self).ops_done + 1,
            final(self).latency_sum_nanos == clamp_u64(
                old(self).latency_sum_nanos + latency_nanos,
            ),
            final(self).rng_state == old(self).rng_state,
            final(self).file_size_bytes == old(self).file_size_bytes,
            final(self).block_size_bytes == old(self).block_size_bytes,
            final(self).block_count == old(self).block_count,
    {
        self.ops_done = self.ops_done + 1;
        self.latency_sum_nanos = self.latency_sum_nanos.saturating_add(latency_nanos);
    }

    /// Progress of this phase in hundredths of a percent.
    pub fn progress(&self) -> (r: u32)
        ensures
            r <= crate::progress::PROGRESS_DONE,
    {
        crate::clock::progress_fraction(self.ops_done, RANDOM_IO_MAX_OPS)
    }

    /// The phase's metrics: bytes moved are the completed operations times
    /// the block size.
    pub fn metrics(&self, elapsed_nanos: u64) -> (r: StorageMetrics)
        requires
            elapsed_nanos >= 1,
        ensures
            r.throughput == mb_per_second_spec(
                clamp_u64((self.ops_done as int) * (self.block_size_bytes as int)),
                elapsed_nanos as int,
            ),
            r.iops == per_second_spec(self.ops_done as int, elapsed_nanos as int),
            self.ops_done > 0 ==> r.latency == self.latency_sum_nanos / self.ops_done,
            self.ops_done == 0 ==> r.latency == 0,
    {
        let bytes = sat_mul(self.ops_done, self.block_size_bytes);
        metrics_from_counts(bytes, self.ops_done, self.latency_sum_nanos, elapsed_nanos)
    }
}

impl StorageBenchmark {
    pub fn new(config: StorageTestConfig) -> (r: StorageBenchmark)
        ensures
            r.config == config,
    {
        StorageBenchmark { config }
    }

    /// The configured file size in bytes.
    pub open spec fn file_size_bytes_spec(&self) -> int {
        (self.config.file_size as int) * (BYTES_PER_MEGABYTE as int)
    }

    /// The configured block size in bytes.
    pub open spec fn block_size_bytes_spec(&self) -> int {
        (self.config.block_size as int) * (BYTES_PER_KILOBYTE as int)
    }

    /// The configuration fits the machine and leaves no phase degenerate:
    /// both sizes are positive, at least one block fits in the file, and the
    /// byte counts stay within `u64`.
    pub open spec fn config_fits(&self) -> bool {
        &&& self.config.block_size >= 1
        &&& self.config.file_size >= 1
        &&& self.block_size_bytes_spec() <= self.file_size_bytes_spec()
        &&& self.file_size_bytes_spec() + self.block_size_bytes_spec() <= u64::MAX
        &&& self.config.file_size * 4 <= u64::MAX
    }

    pub fn file_size_bytes(&self) -> (r: u64)
        requires
            self.config_fits(),
        ensures
            r == self.file_size_bytes_spec(),
            r >= 1,
    {
        self.config.file_size * BYTES_PER_MEGABYTE
    }

    pub fn block_size_bytes(&self) -> (r: u64)
        requires
            self.config_fits(),
        ensures
            r == self.block_size_bytes_spec(),
            r >= 1,
    {
        (self.config.block_size as u64) * BYTES_PER_KILOBYTE
    }

    /// The explicitly configured scratch-file path, if any; when `None`, the
    /// file named by [`default_scratch_file_name`] inside the platform
    /// temporary directory is used.
    pub fn custom_file_path(&self) -> (r: Option<String>)
        ensures
            r == self.config.test_file_path,
    {
        match &self.config.test_file_path {
            Some(p) => Some(p.clone()),
            None => None,
        }
    }

    /// The accounting state machine for the sequential-write phase.
    pub fn seq_write_run(&self) -> (r: SeqWriteRun)
        requires
            self.config_fits(),
        ensures
            r.wf(),
            r.file_size_bytes == self.file_size_bytes_spec(),
            r.block_size_bytes == self.block_size_bytes_spec(),
            r.written == 0,
            r.ops == 0,
            r.latency_sum_nanos == 0,
    {
        SeqWriteRun::new(self.file_size_bytes(), self.block_size_bytes())
    }

    /// The accounting state machine for one random-I/O phase.
    pub fn random_io_run(&self, seed: u64) -> (r: RandomIoRun)
        requires
            self.config_fits(),
        ensures
            r.wf(),
            r.rng_state == seed,
            r.ops_done == 0,
            r.latency_sum_nanos == 0,
            r.file_size_bytes == self.file_size_bytes_spec(),
            r.block_size_bytes == self.block_size_bytes_spec(),
    {
        let fs = self.file_size_bytes();
        let bs = self.block_size_bytes();
        proof {
            lemma_fundamental_div_mod(fs as int, bs as int);
            lemma_mod_bound(fs as int, bs as int);
        }
        RandomIoRun::new(fs, bs, seed)
    }

    /// Assembles the workload result from the four phases' metrics. The
    /// total data processed is four times the configured file size (one full
    /// pass per phase), in megabytes; the duration is floored at one second.
    pub fn assemble_result(
        &self,
        sequential_write: StorageMetrics,
        sequential_read: StorageMetrics,
        random_write: StorageMetrics,
        random_read: StorageMetrics,
        elapsed_secs: u64,
    ) -> (r: StorageTestResult)
        requires
            self.config_fits(),
        ensures
            r.sequential_write == sequential_write,
            r.sequential_read == sequential_read,
            r.random_write == random_write,
            r.random_read == random_read,
            r.test_duration == (if elapsed_secs >= 1 {
                elapsed_secs as int
            } else {
                1
            }),
            r.total_data_processed == self.config.file_size * 4,
    {
        let test_duration = if elapsed_secs >= 1 {
            elapsed_secs
        } else {
            1
        };
        StorageTestResult {
            sequential_read,
            sequential_write,
            random_read,
            random_write,
            test_duration,
            total_data_processed: self.config.file_size * 4,
        }
    }
}

/// The scratch file's name inside the platform temporary directory when no
/// explicit path is configured.
pub fn default_scratch_file_name() -> (r: String)
    ensures
        r@ == "tauri_benchmark_test.dat"@,
{
    "tauri_benchmark_test.dat".to_string()
}

} // verus!

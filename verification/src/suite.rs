//! Suite orchestration: sequences the CPU, memory and storage workloads in
//! that fixed order, skipping disabled ones, tolerating any single
//! workload's failure, honoring cooperative cancellation between phases,
//! and aggregating whatever results were produced into one overall score.
//!
//! The orchestrator is a state machine: the embedding program asks which
//! phase comes next, runs that workload (the storage workload's file calls
//! live outside this library), records the outcome, and finally assembles
//! the [`TestResult`]. Every decision — ordering, skipping, cancellation,
//! scoring — is made and specified here.

use vstd::prelude::*;
use vstd::arithmetic::div_mod::{lemma_div_by_multiple, lemma_div_is_ordered};
use crate::cpu::CpuTestResult;
use crate::engine::{BenchmarkConfig, TestResult};
use crate::ipc::TestStatus;
use crate::memory::MemoryTestResult;
use crate::storage::StorageTestResult;
use crate::system_info::SystemInfo;

verus! {

/// One workload phase of a suite run.
#[derive(Debug, Clone, Copy, PartialEq, Eq, Structural)]
pub enum SuitePhase {
    Cpu,
    Memory,
    Storage,
}

/// A suite run in progress: the immutable configuration, the cancellation
/// flag, and which phases were attempted with which outcomes.
pub struct SuiteOrchestrator {
    pub config: BenchmarkConfig,
    pub cancel_requested: bool,
    pub cpu_attempted: bool,
    pub memory_attempted: bool,
    pub storage_attempted: bool,
    pub cpu_results: Option<CpuTestResult>,
    pub memory_results: Option<MemoryTestResult>,
    pub storage_results: Option<StorageTestResult>,
}

/// A fresh run of `config`: nothing attempted, nothing cancelled.
pub open spec fn spec_new_run(config: BenchmarkConfig) -> SuiteOrchestrator {
    SuiteOrchestrator {
        config,
        cancel_requested: false,
        cpu_attempted: false,
        memory_attempted: false,
        storage_attempted: false,
        cpu_results: None,
        memory_results: None,
        storage_results: None,
    }
}

/// The next phase to run: the first enabled, not-yet-attempted workload in
/// the fixed order CPU, memory, storage — or none, once cancellation was
/// requested or no phase remains.
pub open spec fn spec_next_phase(o: SuiteOrchestrator) -> Option<SuitePhase> {
    if o.cancel_requested {
        None
    } else if o.config.cpu_test.enabled && !o.cpu_attempted {
        Some(SuitePhase::Cpu)
    } else if o.config.memory_test.enabled && !o.memory_attempted {
        Some(SuitePhase::Memory)
    } else if o.config.storage_test.enabled && !o.storage_attempted {
        Some(SuitePhase::Storage)
    } else {
        None
    }
}

/// The run after the CPU phase was attempted with the given outcome.
pub open spec fn spec_with_cpu_outcome(o: SuiteOrchestrator, r: Option<CpuTestResult>)
    -> SuiteOrchestrator {
    SuiteOrchestrator { cpu_attempted: true, cpu_results: r, ..o }
}

/// The run after the memory phase was attempted with the given outcome.
pub open spec fn spec_with_memory_outcome(o: SuiteOrchestrator, r: Option<MemoryTestResult>)
    -> SuiteOrchestrator {
    SuiteOrchestrator { memory_attempted: true, memory_results: r, ..o }
}

/// The run after the storage phase was attempted with the given outcome.
pub open spec fn spec_with_storage_outcome(o: SuiteOrchestrator, r: Option<StorageTestResult>)
    -> SuiteOrchestrator {
    SuiteOrchestrator { storage_attempted: true, storage_results: r, ..o }
}

/// The run after cancellation was requested.
pub open spec fn spec_with_cancel(o: SuiteOrchestrator) -> SuiteOrchestrator {
    SuiteOrchestrator { cancel_requested: true, ..o }
}

/// The state a finished run ends in: `Cancelled` when cancellation was
/// requested, otherwise `Completed` — which means "ran to the end", not
/// "every workload succeeded".
pub open spec fn spec_finish_status(o: SuiteOrchestrator) -> TestStatus {
    if o.cancel_requested {
        TestStatus::Cancelled
    } else {
        TestStatus::Completed
    }
}

/// A CPU result's summary score: the mean of its three kernel scores.
pub open spec fn cpu_summary_spec(c: CpuTestResult) -> int {
    (c.single_thread_score + c.multi_thread_score + c.floating_point_score) / 3
}

/// A memory result's summary score: the mean of its two sequential speeds.
pub open spec fn memory_summary_spec(m: MemoryTestResult) -> int {
    (m.sequential_read_speed + m.sequential_write_speed) / 2
}

/// A storage result's summary score: the mean of its two sequential
/// throughputs.
pub open spec fn storage_summary_spec(s: StorageTestResult) -> int {
    (s.sequential_read.throughput + s.sequential_write.throughput) / 2
}

/// The aggregate score: the arithmetic mean of the summary scores of
/// whichever workload results are present; 0 when none is.
pub open spec fn overall_score_spec(
    cpu: Option<CpuTestResult>,
    memory: Option<MemoryTestResult>,
    storage: Option<StorageTestResult>,
) -> int {
    let total = (if cpu is Some {
        cpu_summary_spec(cpu->0)
    } else {
        0
    }) + (if memory is Some {
        memory_summary_spec(memory->0)
    } else {
        0
    }) + (if storage is Some {
        storage_summary_spec(storage->0)
    } else {
        0
    });
    let count = (if cpu is Some {
        1int
    } else {
        0
    }) + (if memory is Some {
        1int
    } else {
        0
    }) + (if storage is Some {
        1int
    } else {
        0
    });
    if count == 0 {
        0
    } else {
        total / count
    }
}

/// Computes the aggregate score of a run's result.
pub fn calculate_overall_score(result: &TestResult) -> (r: u64)
    ensures
        r == overall_score_spec(result.cpu_results, result.memory_results, result.storage_results),
{
    let mut total: u128 = 0;
    let mut count: u64 = 0;

    if let Some(cpu_result) = &result.cpu_results {
        let s = crate::rates::mean3(
            cpu_result.single_thread_score,
            cpu_result.multi_thread_score,
            cpu_result.floating_point_score,
        );
        total = total + s as u128;
        count = count + 1;
    }
    if let Some(memory_result) = &result.memory_results {
        let s = crate::rates::mean2(
            memory_result.sequential_read_speed,
            memory_result.sequential_write_speed,
        );
        total = total + s as u128;
        count = count + 1;
    }
    if let Some(storage_result) = &result.storage_results {
        let s = crate::rates::mean2(
            storage_result.sequential_read.throughput,
            storage_result.sequential_write.throughput,
        );
        total = total + s as u128;
        count = count + 1;
    }

    if count == 0 {
        0
    } else {
        proof {
            lemma_div_is_ordered(
                total as int,
                (count as int) * (u64::MAX as int),
                count as int,
            );
            lemma_div_by_multiple(u64::MAX as int, count as int);
            assert((count as int) * (u64::MAX as int) == (u64::MAX as int) * (count as int))
                by (nonlinear_arith);
            assert(total as int <= (count as int) * (u64::MAX as int)) by (nonlinear_arith)
                requires
                    count >= 1,
                    count <= 3,
                    total <= 3 * (u64::MAX as int),
                    total <= (count as int) * (u64::MAX as int),
            ;
        }
        (total / (count as u128)) as u64
    }
}

/// The overall progress in hundredths of a percent while one workload is
/// running: the completed phases' share plus the running workload's own
/// progress scaled into its share. Never exceeds 100.00%.
pub fn scaled_progress(workload_progress: u32, completed_phases: u64, total_enabled: u64) -> (r:
    u32)
    requires
        total_enabled >= 1,
        completed_phases < total_enabled,
        workload_progress <= crate::progress::PROGRESS_DONE,
    ensures
        r == ((completed_phases as int) * 10000 + workload_progress) / (total_enabled as int),
        r <= crate::progress::PROGRESS_DONE,
{
    let v: u128 = ((completed_phases as u128) * 10000u128 + (workload_progress as u128)) / (
    total_enabled as u128);
    proof {
        let c = completed_phases as int;
        let t = total_enabled as int;
        let w = workload_progress as int;
        assert(c * 10000 + w <= t * 10000) by (nonlinear_arith)
            requires
                c < t,
                w <= 10000,
        ;
        lemma_div_is_ordered(c * 10000 + w, t * 10000, t);
        lemma_div_by_multiple(10000, t);
        assert(t * 10000 == 10000 * t) by (nonlinear_arith);
    }
    v as u32
}

impl SuiteOrchestrator {
    /// Begins a fresh run of `config`.
    pub fn new(config: BenchmarkConfig) -> (r: SuiteOrchestrator)
        ensures
            r == spec_new_run(config),
    {
        SuiteOrchestrator {
            config,
            cancel_requested: false,
            cpu_attempted: false,
            memory_attempted: false,
            storage_attempted: false,
            cpu_results: None,
            memory_results: None,
            storage_results: None,
        }
    }

    /// How many workloads this run will attempt at most.
    pub fn enabled_count(&self) -> (r: u64)
        ensures
            r == (if self.config.cpu_test.enabled {
                1int
            } else {
                0
            }) + (if self.config.memory_test.enabled {
                1int
            } else {
                0
            }) + (if self.config.storage_test.enabled {
                1int
            } else {
                0
            }),
    {
        let mut n: u64 = 0;
        if self.config.cpu_test.enabled {
            n = n + 1;
        }
        if self.config.memory_test.enabled {
            n = n + 1;
        }
        if self.config.storage_test.enabled {
            n = n + 1;
        }
        n
    }

    /// The next phase to run, if any.
    pub fn next_phase(&self) -> (r: Option<SuitePhase>)
        ensures
            r == spec_next_phase(*self),
    {
        if self.cancel_requested {
            None
        } else if self.config.cpu_test.enabled && !self.cpu_attempted {
            Some(SuitePhase::Cpu)
        } else if self.config.memory_test.enabled && !self.memory_attempted {
            Some(SuitePhase::Memory)
        } else if self.config.storage_test.enabled && !self.storage_attempted {
            Some(SuitePhase::Storage)
        } else {
            None
        }
    }

    /// Requests cooperative cancellation: the workload in progress finishes,
    /// every later phase is skipped.
    pub fn request_cancel(&mut self)
        ensures
            *final(self) == spec_with_cancel(*old(self)),
    {
        self.cancel_requested = true;
    }

    /// Records the CPU phase's outcome; a failed workload records `None`
    /// and the suite goes on.
    pub fn record_cpu_outcome(&mut self, r: Option<CpuTestResult>)
        ensures
            *final(self) == spec_with_cpu_outcome(*old(self), r),
    {
        self.cpu_attempted = true;
        self.cpu_results = r;
    }

    /// Records the memory phase's outcome.
    pub fn record_memory_outcome(&mut self, r: Option<MemoryTestResult>)
        ensures
            *final(self) == spec_with_memory_outcome(*old(self), r),
    {
        self.memory_attempted = true;
        self.memory_results = r;
    }

    /// Records the storage phase's outcome.
    pub fn record_storage_outcome(&mut self, r: Option<StorageTestResult>)
        ensures
            *final(self) == spec_with_storage_outcome(*old(self), r),
    {
        self.storage_attempted = true;
        self.storage_results = r;
    }

    /// The state this run ends in.
    pub fn finish_status(&self) -> (r: TestStatus)
        ensures
            r == spec_finish_status(*self),
    {
        if self.cancel_requested {
            TestStatus::Cancelled
        } else {
            TestStatus::Completed
        }
    }

    /// Assembles the run's result: the snapshot and timestamp the caller
    /// collected, whichever workload results are present, and the aggregate
    /// score over exactly those.
    pub fn build_result(self, timestamp: String, system_info: SystemInfo) -> (r: TestResult)
        ensures
            r.timestamp == timestamp,
            r.system_info == system_info,
            r.cpu_results == self.cpu_results,
            r.memory_results == self.memory_results,
            r.storage_results == self.storage_results,
            r.overall_score == overall_score_spec(
                self.cpu_results,
                self.memory_results,
                self.storage_results,
            ),
    {
        let mut result = TestResult {
            timestamp,
            system_info,
            cpu_results: self.cpu_results,
            memory_results: self.memory_results,
            storage_results: self.storage_results,
            overall_score: 0,
        };
        let score = calculate_overall_score(&result);
        result.overall_score = score;
        result
    }
}

/// With CPU and memory results present but no storage result, the overall
/// score is the mean of the CPU summary (the mean of its three kernel
/// scores) and the memory summary (the mean of its two sequential speeds).
pub proof fn lemma_overall_score_cpu_memory(c: CpuTestResult, m: MemoryTestResult)
    ensures
        overall_score_spec(Some(c), Some(m), None) == (cpu_summary_spec(c)
            + memory_summary_spec(m)) / 2,
{
}

/// With no workload result at all, the overall score is zero.
pub proof fn lemma_overall_score_empty()
    ensures
        overall_score_spec(None, None, None) == 0,
{
}

/// Cancellation between phases leaves earlier results in place and later
/// phases unrun. For a run of a fully enabled suite whose first (CPU) phase
/// succeeded: once cancellation is requested, no phase comes next, the run
/// ends `Cancelled`, the CPU result is present, and the memory and storage
/// results stay absent.
pub proof fn lemma_cancel_between_phases(config: BenchmarkConfig, cpu: CpuTestResult)
    requires
        config.cpu_test.enabled,
        config.memory_test.enabled,
        config.storage_test.enabled,
    ensures
        ({
            let run = spec_with_cancel(
                spec_with_cpu_outcome(spec_new_run(config), Some(cpu)),
            );
            &&& spec_next_phase(run) is None
            &&& spec_finish_status(run) == TestStatus::Cancelled
            &&& run.cpu_results == Some(cpu)
            &&& run.memory_results is None
            &&& run.storage_results is None
        }),
{
}

/// Before cancellation, a fresh fully-enabled run attempts its phases in
/// the fixed order: CPU first, then memory, then storage, then none.
pub proof fn lemma_phase_order(config: BenchmarkConfig, c: Option<CpuTestResult>, m: Option<
    MemoryTestResult,
>, s: Option<StorageTestResult>)
    requires
        config.cpu_test.enabled,
        config.memory_test.enabled,
        config.storage_test.enabled,
    ensures
        ({
            let r0 = spec_new_run(config);
            let r1 = spec_with_cpu_outcome(r0, c);
            let r2 = spec_with_memory_outcome(r1, m);
            let r3 = spec_with_storage_outcome(r2, s);
            &&& spec_next_phase(r0) == Some(SuitePhase::Cpu)
            &&& spec_next_phase(r1) == Some(SuitePhase::Memory)
            &&& spec_next_phase(r2) == Some(SuitePhase::Storage)
            &&& spec_next_phase(r3) is None
        }),
{
}

} // verus!

//! Suite-level configuration and the engine's top-level handle.
//!
//! A [`BenchmarkConfig`] carries one enable flag and the workload-specific
//! parameters for each of the three workloads; it is immutable once a run
//! starts. A [`TestResult`] holds one run's outcome: the system snapshot,
//! whichever workload results were produced, and the aggregate score.

use vstd::prelude::*;
use crate::cpu::CpuTestResult;
use crate::error::BenchmarkError;
use crate::memory::MemoryTestResult;
use crate::storage::StorageTestResult;
use crate::system_info::SystemInfo;

verus! {

#[derive(Debug, Clone, PartialEq, Eq, Structural)]
pub struct CpuTestConfig {
    pub enabled: bool,
    pub duration: u64,
    pub thread_count: usize,
}

/// `buffer_size` is in megabytes.
#[derive(Debug, Clone, PartialEq, Eq, Structural)]
pub struct MemoryTestConfig {
    pub enabled: bool,
    pub buffer_size: usize,
    pub iterations: usize,
}

/// `file_size` is in megabytes, `block_size` in kilobytes.
#[derive(Debug, Clone, PartialEq, Eq, Structural)]
pub struct StorageTestConfig {
    pub enabled: bool,
    pub file_size: u64,
    pub block_size: usize,
}

#[derive(Debug, Clone, PartialEq, Eq, Structural)]
pub struct BenchmarkConfig {
    pub cpu_test: CpuTestConfig,
    pub memory_test: MemoryTestConfig,
    pub storage_test: StorageTestConfig,
}

/// One suite run's outcome. A disabled or failed workload leaves its result
/// absent; the suite is still valid.
#[derive(Debug, Clone)]
pub struct TestResult {
    pub timestamp: String,
    pub system_info: SystemInfo,
    pub cpu_results: Option<CpuTestResult>,
    pub memory_results: Option<MemoryTestResult>,
    pub storage_results: Option<StorageTestResult>,
    pub overall_score: u64,
}

/// The engine's top-level handle: the current configuration and the results
/// collected so far.
pub struct BenchmarkCore {
    pub config: BenchmarkConfig,
    pub results: Vec<TestResult>,
}

/// The default suite configuration: every workload enabled, 60 s of CPU
/// stress on all cores, a 1 GiB memory buffer over 100 passes, and a 1 GiB
/// scratch file in 4 KiB blocks.
pub open spec fn default_config() -> BenchmarkConfig {
    BenchmarkConfig {
        cpu_test: CpuTestConfig { enabled: true, duration: 60, thread_count: 0 },
        memory_test: MemoryTestConfig { enabled: true, buffer_size: 1024, iterations: 100 },
        storage_test: StorageTestConfig { enabled: true, file_size: 1024, block_size: 4 },
    }
}

impl BenchmarkCore {
    pub fn new() -> (r: BenchmarkCore)
        ensures
            r.config == default_config(),
            r.results@.len() == 0,
    {
        BenchmarkCore {
            config: BenchmarkConfig {
                cpu_test: CpuTestConfig { enabled: true, duration: 60, thread_count: 0 },
                memory_test: MemoryTestConfig {
                    enabled: true,
                    buffer_size: 1024,
                    iterations: 100,
                },
                storage_test: StorageTestConfig { enabled: true, file_size: 1024, block_size: 4 },
            },
            results: Vec::new(),
        }
    }

    pub fn set_config(&mut self, config: BenchmarkConfig)
        ensures
            final(self).config == config,
            final(self).results == old(self).results,
    {
        self.config = config;
    }

    pub fn get_config(&self) -> (r: &BenchmarkConfig)
        ensures
            r == self.config,
    {
        &self.config
    }

    /// Standalone CPU runs through this handle are not offered yet; the
    /// orchestrator drives the workloads directly.
    pub fn run_cpu_benchmark(&mut self) -> (r: Result<CpuTestResult, BenchmarkError>)
        ensures
            *final(self) == *old(self),
            r matches Err(e) ==> e matches BenchmarkError::CpuTestError(m) && m@
                == "Not implemented yet"@,
            r is Err,
    {
        Err(BenchmarkError::CpuTestError("Not implemented yet".to_string()))
    }

    /// Standalone memory runs through this handle are not offered yet.
    pub fn run_memory_benchmark(&mut self) -> (r: Result<MemoryTestResult, BenchmarkError>)
        ensures
            *final(self) == *old(self),
            r matches Err(e) ==> e matches BenchmarkError::MemoryTestError(m) && m@
                == "Not implemented yet"@,
            r is Err,
    {
        Err(BenchmarkError::MemoryTestError("Not implemented yet".to_string()))
    }

    /// Standalone storage runs through this handle are not offered yet.
    pub fn run_storage_benchmark(&mut self) -> (r: Result<StorageTestResult, BenchmarkError>)
        ensures
            *final(self) == *old(self),
            r matches Err(e) ==> e matches BenchmarkError::StorageTestError(m) && m@
                == "Not implemented yet"@,
            r is Err,
    {
        Err(BenchmarkError::StorageTestError("Not implemented yet".to_string()))
    }

    /// A fresh snapshot of the host's facts.
    pub fn get_system_info() -> (r: Result<SystemInfo, BenchmarkError>)
        ensures
            r matches Err(e) ==> e matches BenchmarkError::SystemInfoError(_),
    {
        crate::system_info::collect_system_info()
    }
}

} // verus!

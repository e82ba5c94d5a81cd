//! Error kinds of the benchmark engine.
//!
//! A workload-internal error is captured and converted into an absent result;
//! it never aborts the whole suite. Only a failure to collect system
//! information does.

use vstd::prelude::*;

verus! {

/// The error kinds the engine can report. The payload carries a
/// human-readable detail message.
#[derive(Debug, Clone)]
pub enum BenchmarkError {
    SystemInfoError(String),
    CpuTestError(String),
    MemoryTestError(String),
    StorageTestError(String),
    DataSaveError(String),
    PermissionError(String),
}

impl BenchmarkError {
    /// The stable machine-readable code of this error kind.
    pub fn code(&self) -> (r: String)
        ensures
            self matches BenchmarkError::SystemInfoError(_) ==> r@ == "SYSTEM_INFO_ERROR"@,
            self matches BenchmarkError::CpuTestError(_) ==> r@ == "CPU_TEST_ERROR"@,
            self matches BenchmarkError::MemoryTestError(_) ==> r@ == "MEMORY_TEST_ERROR"@,
            self matches BenchmarkError::StorageTestError(_) ==> r@ == "STORAGE_TEST_ERROR"@,
            self matches BenchmarkError::DataSaveError(_) ==> r@ == "DATA_SAVE_ERROR"@,
            self matches BenchmarkError::PermissionError(_) ==> r@ == "PERMISSION_ERROR"@,
    {
        match self {
            BenchmarkError::SystemInfoError(_) => "SYSTEM_INFO_ERROR".to_string(),
            BenchmarkError::CpuTestError(_) => "CPU_TEST_ERROR".to_string(),
            BenchmarkError::MemoryTestError(_) => "MEMORY_TEST_ERROR".to_string(),
            BenchmarkError::StorageTestError(_) => "STORAGE_TEST_ERROR".to_string(),
            BenchmarkError::DataSaveError(_) => "DATA_SAVE_ERROR".to_string(),
            BenchmarkError::PermissionError(_) => "PERMISSION_ERROR".to_string(),
        }
    }
}

} // verus!

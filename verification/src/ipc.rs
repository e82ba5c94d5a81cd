//! Event and session types exchanged with the embedding shell, and the
//! mapping from engine errors to transport errors.
//!
//! Progress and usage percentages are carried in hundredths of a percent
//! (10000 = 100.00%).

use vstd::prelude::*;
use crate::engine::{BenchmarkConfig, TestResult};
use crate::error::BenchmarkError;

verus! {

/// Progress of a running suite.
#[derive(Debug, Clone)]
pub struct BenchmarkProgress {
    pub session_id: String,
    pub current_test: String,
    pub overall_progress: u32,
    pub test_progress: u32,
    pub message: String,
    pub estimated_time_remaining: Option<u64>,
}

/// A point-in-time reading of host load.
#[derive(Debug, Clone)]
pub struct SystemMonitoringData {
    pub cpu_usage: u32,
    pub memory_usage: u32,
    pub temperature: Option<u32>,
    pub timestamp: String,
}

/// Lifecycle state of one test session.
#[derive(Debug, Clone, Copy, PartialEq, Eq, Structural)]
pub enum TestStatus {
    Pending,
    Running,
    Completed,
    Failed,
    Cancelled,
}

/// One progress update of a single workload.
#[derive(Debug, Clone)]
pub struct ProgressUpdate {
    pub progress: u32,
    pub message: String,
    pub test_type: String,
}

#[verifier::external_type_specification]
#[verifier::external_body]
pub struct ExValue(serde_json::Value);

/// Completion (or failure) of one workload; the payload, if any, is an
/// already-serialized value produced by the embedding shell.
pub struct TestCompleteEvent {
    pub session_id: String,
    pub test_type: String,
    pub success: bool,
    pub result: Option<serde_json::Value>,
    pub error: Option<String>,
}

/// Completion of a whole suite run.
#[derive(Debug, Clone)]
pub struct BenchmarkSuiteCompleteEvent {
    pub session_id: String,
    pub success: bool,
    pub results: Option<TestResult>,
    pub error: Option<String>,
}

/// The lifecycle record of one suite invocation.
#[derive(Debug, Clone)]
pub struct TestSession {
    pub session_id: String,
    pub status: TestStatus,
    pub start_time: String,
    pub end_time: Option<String>,
    pub config: Option<BenchmarkConfig>,
}

/// A live metric sample of a running workload.
#[derive(Debug, Clone)]
pub struct RealTimePerformanceData {
    pub session_id: String,
    pub test_type: String,
    pub metrics: Vec<(String, u64)>,
    pub timestamp: String,
}

/// A non-fatal problem during a suite run.
#[derive(Debug, Clone)]
pub struct TestWarningEvent {
    pub session_id: String,
    pub test_type: String,
    pub warning_type: String,
    pub message: String,
    pub severity: WarningSeverity,
}

#[derive(Debug, Clone, Copy, PartialEq, Eq, Structural)]
pub enum WarningSeverity {
    Low,
    Medium,
    High,
    Critical,
}

/// A transport-level error: a stable code, a short human message, and the
/// engine's detail text.
#[derive(Debug, Clone)]
pub struct IpcError {
    pub code: String,
    pub message: String,
    pub details: Option<String>,
}

impl IpcError {
    /// Maps an engine error to its transport form: each kind gets its
    /// stable code and short message, and the detail text is carried over.
    pub fn from(error: BenchmarkError) -> (r: IpcError)
        ensures
            error matches BenchmarkError::SystemInfoError(m) ==> r.code@ == "SYSTEM_INFO_ERROR"@
                && r.message@ == "系统信息获取失败"@ && r.details == Some(m),
            error matches BenchmarkError::CpuTestError(m) ==> r.code@ == "CPU_TEST_ERROR"@
                && r.message@ == "CPU测试失败"@ && r.details == Some(m),
            error matches BenchmarkError::MemoryTestError(m) ==> r.code@ == "MEMORY_TEST_ERROR"@
                && r.message@ == "内存测试失败"@ && r.details == Some(m),
            error matches BenchmarkError::StorageTestError(m) ==> r.code@
                == "STORAGE_TEST_ERROR"@ && r.message@ == "存储测试失败"@ && r.details
                == Some(m),
            error matches BenchmarkError::DataSaveError(m) ==> r.code@ == "DATA_SAVE_ERROR"@
                && r.message@ == "数据保存失败"@ && r.details == Some(m),
            error matches BenchmarkError::PermissionError(m) ==> r.code@ == "PERMISSION_ERROR"@
                && r.message@ == "权限不足"@ && r.details == Some(m),
    {
        match error {
            BenchmarkError::SystemInfoError(msg) => IpcError {
                code: "SYSTEM_INFO_ERROR".to_string(),
                message: "系统信息获取失败".to_string(),
                details: Some(msg),
            },
            BenchmarkError::CpuTestError(msg) => IpcError {
                code: "CPU_TEST_ERROR".to_string(),
                message: "CPU测试失败".to_string(),
                details: Some(msg),
            },
            BenchmarkError::MemoryTestError(msg) => IpcError {
                code: "MEMORY_TEST_ERROR".to_string(),
                message: "内存测试失败".to_string(),
                details: Some(msg),
            },
            BenchmarkError::StorageTestError(msg) => IpcError {
                code: "STORAGE_TEST_ERROR".to_string(),
                message: "存储测试失败".to_string(),
                details: Some(msg),
            },
            BenchmarkError::DataSaveError(msg) => IpcError {
                code: "DATA_SAVE_ERROR".to_string(),
                message: "数据保存失败".to_string(),
                details: Some(msg),
            },
            BenchmarkError::PermissionError(msg) => IpcError {
                code: "PERMISSION_ERROR".to_string(),
                message: "权限不足".to_string(),
                details: Some(msg),
            },
        }
    }
}

} // verus!

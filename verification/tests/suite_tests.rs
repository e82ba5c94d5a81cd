use benchmark_suite::cpu::CpuTestResult;
use benchmark_suite::engine::{
    BenchmarkConfig, BenchmarkCore, CpuTestConfig, MemoryTestConfig, StorageTestConfig,
    TestResult,
};
use benchmark_suite::error::BenchmarkError;
use benchmark_suite::ipc::{IpcError, TestStatus};
use benchmark_suite::memory::MemoryTestResult;
use benchmark_suite::sessions::{
    is_terminal, pause_decision, resume_decision, SessionRegistry,
};
use benchmark_suite::suite::{
    calculate_overall_score, scaled_progress, SuiteOrchestrator, SuitePhase,
};
use benchmark_suite::system_info::collect_system_info;

fn all_enabled_config() -> BenchmarkConfig {
    BenchmarkConfig {
        cpu_test: CpuTestConfig {
            enabled: true,
            duration: 1,
            thread_count: 0,
        },
        memory_test: MemoryTestConfig {
            enabled: true,
            buffer_size: 1,
            iterations: 1,
        },
        storage_test: StorageTestConfig {
            enabled: true,
            file_size: 1,
            block_size: 4,
        },
    }
}

fn sample_cpu_result() -> CpuTestResult {
    CpuTestResult {
        single_thread_score: 100,
        multi_thread_score: 200,
        floating_point_score: 150,
        average_temperature: 50,
        max_temperature: 60,
        test_duration: 60,
        operations_per_second: 1000,
    }
}

fn sample_memory_result() -> MemoryTestResult {
    MemoryTestResult {
        sequential_read_speed: 1000,
        sequential_write_speed: 800,
        random_access_speed: 500,
        latency: 100,
        memory_usage_peak: 1024,
        error_rate: 0,
        test_duration: 30,
    }
}

#[test]
fn test_calculate_overall_score() {
    let system_info = collect_system_info().expect("system facts should be collectable");
    let test_result = TestResult {
        timestamp: "2024-01-01T00:00:00Z".to_string(),
        system_info,
        cpu_results: Some(sample_cpu_result()),
        memory_results: Some(sample_memory_result()),
        storage_results: None,
        overall_score: 0,
    };

    let score = calculate_overall_score(&test_result);
    assert!(score > 0, "Overall score should be greater than 0");

    // The mean of the CPU summary (100+200+150)/3 = 150 and the memory
    // summary (1000+800)/2 = 900.
    let expected_overall = (150 + 900) / 2;
    assert_eq!(score, expected_overall, "Score calculation should be accurate");
}

#[test]
fn test_overall_score_no_results_is_zero() {
    let system_info = collect_system_info().expect("system facts should be collectable");
    let test_result = TestResult {
        timestamp: "2024-01-01T00:00:00Z".to_string(),
        system_info,
        cpu_results: None,
        memory_results: None,
        storage_results: None,
        overall_score: 0,
    };
    assert_eq!(calculate_overall_score(&test_result), 0);
}

#[test]
fn test_ipc_error_conversion() {
    let benchmark_error = BenchmarkError::CpuTestError("Test error".to_string());
    let ipc_error = IpcError::from(benchmark_error);

    assert_eq!(ipc_error.code, "CPU_TEST_ERROR");
    assert_eq!(ipc_error.message, "CPU测试失败");
    assert_eq!(ipc_error.details, Some("Test error".to_string()));
}

#[test]
fn test_ipc_error_codes_for_every_kind() {
    let cases = vec![
        (BenchmarkError::SystemInfoError("a".to_string()), "SYSTEM_INFO_ERROR"),
        (BenchmarkError::CpuTestError("b".to_string()), "CPU_TEST_ERROR"),
        (BenchmarkError::MemoryTestError("c".to_string()), "MEMORY_TEST_ERROR"),
        (BenchmarkError::StorageTestError("d".to_string()), "STORAGE_TEST_ERROR"),
        (BenchmarkError::DataSaveError("e".to_string()), "DATA_SAVE_ERROR"),
        (BenchmarkError::PermissionError("f".to_string()), "PERMISSION_ERROR"),
    ];
    for (err, code) in cases {
        assert_eq!(err.code(), code);
        assert_eq!(IpcError::from(err).code, code);
    }
}

#[test]
fn test_suite_runs_phases_in_order() {
    let mut run = SuiteOrchestrator::new(all_enabled_config());
    assert_eq!(run.enabled_count(), 3);

    assert_eq!(run.next_phase(), Some(SuitePhase::Cpu));
    run.record_cpu_outcome(Some(sample_cpu_result()));
    assert_eq!(run.next_phase(), Some(SuitePhase::Memory));
    run.record_memory_outcome(Some(sample_memory_result()));
    assert_eq!(run.next_phase(), Some(SuitePhase::Storage));
    run.record_storage_outcome(None);
    assert_eq!(run.next_phase(), None);
    assert_eq!(run.finish_status(), TestStatus::Completed);
}

#[test]
fn test_suite_skips_disabled_phases() {
    let mut config = all_enabled_config();
    config.cpu_test.enabled = false;
    config.storage_test.enabled = false;
    let mut run = SuiteOrchestrator::new(config);
    assert_eq!(run.enabled_count(), 1);
    assert_eq!(run.next_phase(), Some(SuitePhase::Memory));
    run.record_memory_outcome(Some(sample_memory_result()));
    assert_eq!(run.next_phase(), None);
}

// Cancellation between phase 1 and phase 2 of a three-phase suite: the
// phase-1 result stays, phases 2 and 3 never run, and the session ends
// `Cancelled`.
#[test]
fn test_cancellation_between_phases() {
    let mut run = SuiteOrchestrator::new(all_enabled_config());
    assert_eq!(run.next_phase(), Some(SuitePhase::Cpu));
    run.record_cpu_outcome(Some(sample_cpu_result()));
    run.request_cancel();

    assert_eq!(run.next_phase(), None);
    assert_eq!(run.finish_status(), TestStatus::Cancelled);

    let system_info = collect_system_info().expect("system facts should be collectable");
    let result = run.build_result("2024-01-01T00:00:00Z".to_string(), system_info);
    assert!(result.cpu_results.is_some());
    assert!(result.memory_results.is_none());
    assert!(result.storage_results.is_none());
    assert_eq!(result.overall_score, 150);
}

#[test]
fn test_suite_tolerates_single_workload_failure() {
    let mut run = SuiteOrchestrator::new(all_enabled_config());
    run.record_cpu_outcome(None);
    assert_eq!(run.next_phase(), Some(SuitePhase::Memory));
    run.record_memory_outcome(Some(sample_memory_result()));
    run.record_storage_outcome(None);
    assert_eq!(run.next_phase(), None);
    assert_eq!(run.finish_status(), TestStatus::Completed);

    let system_info = collect_system_info().expect("system facts should be collectable");
    let result = run.build_result("2024-01-01T00:00:00Z".to_string(), system_info);
    assert!(result.cpu_results.is_none());
    assert_eq!(result.overall_score, 900);
}

#[test]
fn test_scaled_progress_stays_within_bounds() {
    assert_eq!(scaled_progress(0, 0, 3), 0);
    assert_eq!(scaled_progress(10_000, 2, 3), 10_000);
    assert_eq!(scaled_progress(5_000, 0, 2), 2_500);
    for completed in 0..3u64 {
        for p in [0u32, 1, 9_999, 10_000] {
            assert!(scaled_progress(p, completed, 3) <= 10_000);
        }
    }
}

#[test]
fn test_benchmark_suite_session_management() {
    let mut registry = SessionRegistry::new();
    let id = "test-session-123".to_string();

    registry.set_status(id.clone(), TestStatus::Running);
    assert_eq!(
        registry.get_status(&id),
        Some(TestStatus::Running),
        "Session should be in Running state"
    );

    registry.set_status(id.clone(), TestStatus::Completed);
    assert_eq!(
        registry.get_status(&id),
        Some(TestStatus::Completed),
        "Session should be in Completed state"
    );
}

#[test]
fn test_session_cancel_and_cleanup() {
    let mut registry = SessionRegistry::new();
    let a = "session-a".to_string();
    let b = "session-b".to_string();
    registry.set_status(a.clone(), TestStatus::Running);
    registry.set_status(b.clone(), TestStatus::Running);

    assert!(registry.cancel_session(&a));
    assert_eq!(registry.get_status(&a), Some(TestStatus::Cancelled));
    assert!(!registry.cancel_session(&"missing".to_string()));

    let removed = registry.cleanup_completed();
    assert_eq!(removed, 1);
    assert_eq!(registry.get_status(&a), None);
    assert_eq!(registry.get_status(&b), Some(TestStatus::Running));
}

#[test]
fn test_session_snapshot() {
    let mut registry = SessionRegistry::new();
    registry.set_status("one".to_string(), TestStatus::Running);
    registry.set_status("two".to_string(), TestStatus::Completed);

    let now = "2024-01-01T00:00:00Z".to_string();
    let sessions = registry.snapshot(&now);
    assert_eq!(sessions.len(), 2);
    assert_eq!(sessions[0].session_id, "one");
    assert!(sessions[0].end_time.is_none());
    assert_eq!(sessions[1].session_id, "two");
    assert_eq!(sessions[1].end_time, Some(now.clone()));
    assert!(sessions[1].config.is_none());
}

#[test]
fn test_terminal_states() {
    assert!(is_terminal(TestStatus::Completed));
    assert!(is_terminal(TestStatus::Failed));
    assert!(is_terminal(TestStatus::Cancelled));
    assert!(!is_terminal(TestStatus::Running));
    assert!(!is_terminal(TestStatus::Pending));
}

#[test]
fn test_pause_and_resume_decisions() {
    assert_eq!(
        pause_decision(None).unwrap_err(),
        "测试会话不存在"
    );
    assert_eq!(
        pause_decision(Some(TestStatus::Running)).unwrap_err(),
        "暂停功能尚未完全实现"
    );
    assert_eq!(
        pause_decision(Some(TestStatus::Completed)).unwrap_err(),
        "只能暂停正在运行的测试"
    );
    assert_eq!(
        resume_decision(true).unwrap_err(),
        "恢复功能尚未完全实现"
    );
    assert_eq!(
        resume_decision(false).unwrap_err(),
        "测试会话不存在"
    );
}

#[test]
fn test_benchmark_core_defaults_and_config() {
    let mut core = BenchmarkCore::new();
    assert!(core.get_config().cpu_test.enabled);
    assert_eq!(core.get_config().cpu_test.duration, 60);
    assert_eq!(core.get_config().cpu_test.thread_count, 0);
    assert_eq!(core.get_config().memory_test.buffer_size, 1024);
    assert_eq!(core.get_config().memory_test.iterations, 100);
    assert_eq!(core.get_config().storage_test.file_size, 1024);
    assert_eq!(core.get_config().storage_test.block_size, 4);

    let mut config = all_enabled_config();
    config.cpu_test.duration = 5;
    core.set_config(config.clone());
    assert_eq!(core.get_config(), &config);

    assert!(core.run_cpu_benchmark().is_err());
    assert!(core.run_memory_benchmark().is_err());
    assert!(core.run_storage_benchmark().is_err());
    assert!(BenchmarkCore::get_system_info().is_ok());
}

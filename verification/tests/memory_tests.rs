use benchmark_suite::memory::{resident_delta_mb, MemoryBenchmark, MemoryTestConfig};
use benchmark_suite::progress::RecordingSink;

fn config(buffer_mb: usize, iterations: usize, monitor: bool) -> MemoryTestConfig {
    MemoryTestConfig {
        buffer_size: buffer_mb,
        iterations,
        test_duration: 5,
        enable_usage_monitoring: monitor,
    }
}

#[test]
fn test_memory_benchmark_creation() {
    let config = MemoryTestConfig {
        buffer_size: 10,
        iterations: 5,
        test_duration: 10,
        enable_usage_monitoring: false,
    };

    let benchmark = MemoryBenchmark::new(config);
    assert_eq!(benchmark.config.buffer_size, 10);
    assert_eq!(benchmark.config.iterations, 5);
    assert!(!benchmark.config.enable_usage_monitoring);
}

#[test]
fn memory_test_sequential_read_performance() {
    let benchmark = MemoryBenchmark::new(config(1, 2, false));
    let result = benchmark.test_sequential_read();

    assert!(result.is_ok());
    let speed = result.unwrap();
    assert!(speed > 0, "顺序读取速度应该大于0");
}

#[test]
fn memory_test_sequential_write_performance() {
    let benchmark = MemoryBenchmark::new(config(1, 2, false));
    let result = benchmark.test_sequential_write();

    assert!(result.is_ok());
    let speed = result.unwrap();
    assert!(speed > 0, "顺序写入速度应该大于0");
}

#[test]
fn test_random_access_performance() {
    let benchmark = MemoryBenchmark::new(config(1, 1, false));
    let result = benchmark.test_random_access();

    assert!(result.is_ok());
    let speed = result.unwrap();
    assert!(speed > 0, "随机访问速度应该大于0");
}

#[test]
fn test_memory_latency() {
    let benchmark = MemoryBenchmark::new(config(1, 1, false));
    let result = benchmark.test_memory_latency();

    assert!(result.is_ok());
    let latency = result.unwrap();
    assert!(latency > 0, "内存延迟应该大于0纳秒");
    // One millisecond per access, in picoseconds.
    assert!(latency < 1_000_000_000, "内存延迟应该小于1毫秒");
}

#[test]
fn test_memory_usage_monitoring() {
    let benchmark = MemoryBenchmark::new(config(5, 1, true));
    let result = benchmark.monitor_memory_usage();

    assert!(result.is_ok(), "内存使用量不应该为负数");
}

#[test]
fn test_full_memory_benchmark() {
    let benchmark = MemoryBenchmark::new(config(2, 2, false));
    let result = benchmark.run_benchmark();

    assert!(result.is_ok());
    let memory_result = result.unwrap();

    assert!(memory_result.sequential_read_speed > 0);
    assert!(memory_result.sequential_write_speed > 0);
    assert!(memory_result.random_access_speed > 0);
    assert!(memory_result.latency > 0);
    assert_eq!(memory_result.error_rate, 0);
    assert!(memory_result.test_duration > 0);
}

#[test]
fn test_memory_benchmark_with_monitoring() {
    let benchmark = MemoryBenchmark::new(config(1, 1, true));
    let result = benchmark.run_benchmark();

    assert!(result.is_ok());
    let memory_result = result.unwrap();

    assert!(memory_result.sequential_read_speed > 0);
    assert!(memory_result.sequential_write_speed > 0);
    assert!(memory_result.random_access_speed > 0);
    assert!(memory_result.latency > 0);
}

#[test]
fn test_performance_comparison() {
    let benchmark = MemoryBenchmark::new(config(1, 2, false));

    let read_speed = benchmark.test_sequential_read().unwrap();
    let write_speed = benchmark.test_sequential_write().unwrap();
    let random_speed = benchmark.test_random_access().unwrap();

    assert!(read_speed > 0);
    assert!(write_speed > 0);
    assert!(random_speed > 0);
}

#[test]
fn test_memory_progress_reports_stay_in_range_and_finish_at_full() {
    let benchmark = MemoryBenchmark::new(config(1, 2, false));
    let mut sink = RecordingSink::new();
    let result = benchmark.run_benchmark_with_progress(&mut sink);

    assert!(result.is_ok());
    assert!(!sink.values.is_empty());
    for v in &sink.values {
        assert!(*v <= 10_000);
    }
    assert_eq!(sink.values[0], 0);
    assert_eq!(*sink.values.last().unwrap(), 10_000);
}

// Each pass of an iteration-bound kernel reports exactly once, so a
// two-pass sequential write reports exactly [50.00%, 100.00%].
#[test]
fn test_sequential_write_reports_once_per_pass() {
    let benchmark = MemoryBenchmark::new(config(1, 2, false));
    let mut sink = RecordingSink::new();
    let result = benchmark.test_sequential_write_with_progress(&mut sink);
    assert!(result.is_ok());
    assert_eq!(sink.values, vec![5_000, 10_000]);
}

#[test]
fn test_sequential_read_reports_once_per_pass() {
    let benchmark = MemoryBenchmark::new(config(1, 4, false));
    let mut sink = RecordingSink::new();
    let result = benchmark.test_sequential_read_with_progress(&mut sink);
    assert!(result.is_ok());
    assert_eq!(sink.values, vec![2_500, 5_000, 7_500, 10_000]);
}

#[test]
fn test_resident_delta_is_floored_at_zero() {
    assert_eq!(resident_delta_mb(0, 3 * 1_048_576), 3);
    assert_eq!(resident_delta_mb(1_048_576, 1_048_576 + 524_288), 0);
    assert_eq!(resident_delta_mb(5 * 1_048_576, 1_048_576), 0);
}

use benchmark_suite::cpu::{temperature_stats, CpuBenchmark, CpuTestConfig};
use benchmark_suite::progress::RecordingSink;

fn config(threads: usize, duration: u64) -> CpuTestConfig {
    CpuTestConfig {
        thread_count: threads,
        test_duration: duration,
        enable_temperature_monitoring: false,
    }
}

#[test]
fn test_cpu_benchmark_creation() {
    let config = CpuTestConfig {
        thread_count: 4,
        test_duration: 1,
        enable_temperature_monitoring: false,
    };

    let benchmark = CpuBenchmark::new(config);
    assert_eq!(benchmark.config.thread_count, 4);
    assert_eq!(benchmark.config.test_duration, 1);
    assert!(!benchmark.config.enable_temperature_monitoring);
}

#[test]
fn test_single_thread_performance() {
    let benchmark = CpuBenchmark::new(config(1, 1));
    let result = benchmark.run_single_thread_test(1_000_000_000);

    assert!(result.is_ok());
    let score = result.unwrap();
    assert!(score > 0, "单线程测试分数应该大于0");
}

#[test]
fn test_multi_thread_performance() {
    let benchmark = CpuBenchmark::new(config(2, 1));
    let result = benchmark.run_multi_thread_test(1_000_000_000);

    assert!(result.is_ok());
    let score = result.unwrap();
    assert!(score > 0, "多线程测试分数应该大于0");
}

#[test]
fn test_prime_calculation() {
    let benchmark = CpuBenchmark::new(config(1, 1));

    assert!(benchmark.is_prime(2));
    assert!(benchmark.is_prime(3));
    assert!(benchmark.is_prime(5));
    assert!(benchmark.is_prime(7));
    assert!(!benchmark.is_prime(4));
    assert!(!benchmark.is_prime(6));
    assert!(!benchmark.is_prime(8));
    assert!(!benchmark.is_prime(9));

    let prime_count = benchmark.calculate_primes_up_to(100);
    assert_eq!(prime_count, 25);
}

#[test]
fn test_prime_edge_cases() {
    let benchmark = CpuBenchmark::new(config(1, 1));
    assert!(!benchmark.is_prime(0));
    assert!(!benchmark.is_prime(1));
    assert!(benchmark.is_prime(9973));
    assert!(!benchmark.is_prime(9999));
    assert_eq!(benchmark.calculate_primes_up_to(0), 0);
    assert_eq!(benchmark.calculate_primes_up_to(1), 0);
    assert_eq!(benchmark.calculate_primes_up_to(2), 1);
    assert_eq!(benchmark.calculate_primes_up_to(10), 4);
    assert_eq!(benchmark.calculate_primes_up_to(10_000), 1229);
}

#[test]
fn test_full_benchmark() {
    let benchmark = CpuBenchmark::new(config(2, 1));
    // The floating-point kernel runs outside the library; its measured
    // score is handed in.
    let result = benchmark.run_benchmark(1500, &Vec::new());

    assert!(result.is_ok());
    let cpu_result = result.unwrap();

    assert!(cpu_result.single_thread_score > 0);
    assert!(cpu_result.multi_thread_score > 0);
    assert!(cpu_result.floating_point_score > 0);
    assert_eq!(cpu_result.test_duration, 1);
    assert!(cpu_result.operations_per_second > 0);
}

#[test]
fn test_temperature_monitoring() {
    let samples = vec![30, 55, 42, 61];
    let (avg_temp, max_temp) = temperature_stats(&samples);

    assert_eq!(avg_temp, 47);
    assert_eq!(max_temp, 61);
    assert!(max_temp >= avg_temp);
}

#[test]
fn test_temperature_stats_empty() {
    let (avg_temp, max_temp) = temperature_stats(&Vec::new());
    assert_eq!(avg_temp, 0);
    assert_eq!(max_temp, 0);
}

#[test]
fn test_auto_thread_count() {
    let benchmark = CpuBenchmark::new(config(0, 1));
    let result = benchmark.run_multi_thread_test(1_000_000_000);

    assert!(result.is_ok());
    let score = result.unwrap();
    assert!(score > 0, "自动线程数测试分数应该大于0");
}

#[test]
fn test_cpu_progress_reports_stay_in_range_and_finish_at_full() {
    let benchmark = CpuBenchmark::new(CpuTestConfig {
        thread_count: 1,
        test_duration: 0,
        enable_temperature_monitoring: true,
    });
    let mut sink = RecordingSink::new();
    let samples = vec![10, 20];
    let result = benchmark.run_benchmark_with_progress(&mut sink, 777, &samples);

    assert!(result.is_ok());
    let cpu_result = result.unwrap();
    assert_eq!(cpu_result.floating_point_score, 777);
    assert_eq!(cpu_result.average_temperature, 15);
    assert_eq!(cpu_result.max_temperature, 20);

    assert!(!sink.values.is_empty());
    for v in &sink.values {
        assert!(*v <= 10_000, "Progress should be between 0 and 100");
    }
    assert_eq!(sink.values[0], 0);
    assert_eq!(*sink.values.last().unwrap(), 10_000, "Final progress should be 100%");
}

#[test]
fn test_zero_duration_returns_zero_scores() {
    let benchmark = CpuBenchmark::new(config(1, 0));
    let result = benchmark.run_benchmark(0, &Vec::new());
    assert!(result.is_ok());
    let cpu_result = result.unwrap();
    assert_eq!(cpu_result.single_thread_score, 0);
    assert_eq!(cpu_result.multi_thread_score, 0);
    assert_eq!(cpu_result.operations_per_second, 0);
}

// The multi-thread kernel reports 0 unconditionally before its first round.
#[test]
fn test_multi_thread_reports_zero_first() {
    let benchmark = CpuBenchmark::new(config(2, 0));
    let mut sink = RecordingSink::new();
    let result = benchmark.run_multi_thread_test_with_progress(0, &mut sink);
    assert!(result.is_ok());
    assert_eq!(sink.values[0], 0);
}

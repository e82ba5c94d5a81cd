use benchmark_suite::storage::{
    default_scratch_file_name, metrics_from_counts, RandomIoRun, SeqReadRun, SeqWriteRun,
    StorageBenchmark, StoragePhase, StorageRunPlan, StorageTestConfig, RANDOM_IO_MAX_OPS,
};

fn config(file_mb: u64, block_kb: usize, path: Option<String>) -> StorageTestConfig {
    StorageTestConfig {
        file_size: file_mb,
        block_size: block_kb,
        test_duration: 5,
        test_file_path: path,
    }
}

#[test]
fn test_storage_benchmark_creation() {
    let config = StorageTestConfig {
        file_size: 1,
        block_size: 4,
        test_duration: 5,
        test_file_path: None,
    };

    let benchmark = StorageBenchmark::new(config);
    assert_eq!(benchmark.config.file_size, 1);
    assert_eq!(benchmark.config.block_size, 4);
}

#[test]
fn test_file_path_generation() {
    let benchmark_with_path = StorageBenchmark::new(config(
        1,
        4,
        Some("custom_test.dat".to_string()),
    ));
    assert_eq!(
        benchmark_with_path.custom_file_path(),
        Some("custom_test.dat".to_string())
    );

    let benchmark_without_path = StorageBenchmark::new(config(1, 4, None));
    assert_eq!(benchmark_without_path.custom_file_path(), None);
    assert!(default_scratch_file_name().contains("tauri_benchmark_test.dat"));
}

// Drives the sequential-write accounting over a simulated 1 MiB file in
// 4 KiB blocks: 256 block writes, then positive IOPS and exact throughput.
#[test]
fn test_sequential_write_accounting() {
    let benchmark = StorageBenchmark::new(config(1, 4, None));
    let mut run = benchmark.seq_write_run();
    let mut writes = 0u64;
    while run.wants_more() {
        run.record_write(50_000);
        writes += 1;
    }
    assert_eq!(writes, 256);
    assert_eq!(run.written, 1_048_576);

    // One full second of wall time: exactly 1 MB/s and 256 IOPS.
    let metrics = run.metrics(1_000_000_000);
    assert_eq!(metrics.throughput, 1);
    assert_eq!(metrics.iops, 256);
    assert_eq!(metrics.latency, 50_000);
    assert!(metrics.iops > 0, "IOPS应该大于0");
}

// Drives the sequential-read accounting over the same simulated file: the
// same block count comes back out, and IOPS stay positive.
#[test]
fn test_sequential_read_accounting() {
    let mut run = SeqReadRun::new();
    for _ in 0..256 {
        run.record_read(4096, 30_000);
    }
    assert_eq!(run.bytes_read, 1_048_576);
    assert_eq!(run.ops, 256);

    let metrics = run.metrics(1_000_000_000);
    assert_eq!(metrics.throughput, 1);
    assert_eq!(metrics.iops, 256);
    assert_eq!(metrics.latency, 30_000);
    assert!(metrics.iops > 0, "IOPS应该大于0");
}

#[test]
fn test_sequential_read_empty_file_latency_is_zero() {
    let run = SeqReadRun::new();
    let metrics = run.metrics(1_000_000_000);
    assert_eq!(metrics.throughput, 0);
    assert_eq!(metrics.iops, 0);
    assert_eq!(metrics.latency, 0);
}

#[test]
fn test_random_io_offsets_stay_in_file() {
    let benchmark = StorageBenchmark::new(config(1, 4, None));
    let mut run = benchmark.random_io_run(12345);
    let mut count = 0u64;
    loop {
        match run.next_offset() {
            Some(offset) => {
                assert_eq!(offset % 4096, 0);
                assert!(offset + 4096 <= 1_048_576);
                run.record_op(10_000);
                count += 1;
            }
            None => break,
        }
    }
    assert_eq!(count, RANDOM_IO_MAX_OPS);

    let metrics = run.metrics(1_000_000_000);
    assert!(metrics.throughput > 0);
    assert!(metrics.iops > 0);
    assert_eq!(metrics.latency, 10_000);
}

#[test]
fn test_random_io_sequence_is_deterministic() {
    let benchmark = StorageBenchmark::new(config(1, 4, None));
    let mut a = benchmark.random_io_run(12345);
    let mut b = benchmark.random_io_run(12345);
    for _ in 0..10 {
        assert_eq!(a.next_offset(), b.next_offset());
    }
    let mut c = benchmark.random_io_run(54321);
    let mut differs = false;
    let mut d = benchmark.random_io_run(12345);
    for _ in 0..10 {
        if c.next_offset() != d.next_offset() {
            differs = true;
        }
    }
    assert!(differs);
}

#[test]
fn test_assemble_result_totals() {
    let benchmark = StorageBenchmark::new(config(2, 4, None));
    let m = metrics_from_counts(1_048_576, 256, 1_000_000, 1_000_000_000);
    let result = benchmark.assemble_result(m.clone(), m.clone(), m.clone(), m, 3);
    assert_eq!(result.test_duration, 3);
    assert_eq!(result.total_data_processed, 8);

    let m2 = metrics_from_counts(0, 0, 0, 1);
    let quick = benchmark.assemble_result(m2.clone(), m2.clone(), m2.clone(), m2, 0);
    assert_eq!(quick.test_duration, 1);
}

#[test]
fn test_metrics_from_counts_exact_values() {
    // 10 MiB in one second is 10 MB/s; 100 ops over 2 s is 50 IOPS.
    let m = metrics_from_counts(10 * 1_048_576, 100, 500, 2_000_000_000);
    assert_eq!(m.throughput, 5);
    assert_eq!(m.iops, 50);
    assert_eq!(m.latency, 5);
}

// The plan hands the phases out in the fixed order: sequential write,
// sequential read, random write, random read, then nothing.
#[test]
fn test_storage_phases_run_write_first_in_order() {
    let mut plan = StorageRunPlan::new();
    let expected = [
        StoragePhase::SequentialWrite,
        StoragePhase::SequentialRead,
        StoragePhase::RandomWrite,
        StoragePhase::RandomRead,
    ];
    for phase in expected {
        assert_eq!(plan.next_phase(), Some(phase));
        plan.record_done(phase);
    }
    assert_eq!(plan.next_phase(), None);
}

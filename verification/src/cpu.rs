//! CPU workload: single-thread, multi-thread and floating-point stress
//! kernels run for a configured duration, each scored as completed elementary
//! operations per elapsed second.
//!
//! The single-thread kernel interleaves prime counting with a wrapping
//! multiply-add chain. The multi-thread kernel fans bounded modular
//! arithmetic out across a worker pool with a data-parallel map-reduce; the
//! partial counts are combined with saturating addition, so the order of the
//! reduction cannot change the total. The floating-point kernel cannot be
//! expressed here (this library holds no floating-point code), so its score
//! is measured by the caller and handed in; everything derived from it is
//! still computed and specified here.
//!
//! The "temperature" figures are a load proxy: per-core load percentages
//! sampled by the caller stand in for unavailable hardware thermal sensors.
//! They are not a thermal reading.

use vstd::prelude::*;
use vstd::arithmetic::div_mod::{lemma_add_mod_noop, lemma_div_by_multiple,
    lemma_div_is_ordered};
use vstd::arithmetic::mul::lemma_mul_inequality;
use crate::clock::{progress_fraction, WorkloadClock};
use crate::error::BenchmarkError;
use crate::primes::{count_primes_up_to, is_prime_spec, prime_count_spec};
use crate::progress::{
    extends_in_range, lemma_extends_in_range_trans, lemma_extends_preserves_index,
    lemma_push_extends_in_range, NullSink, ProgressSink, PROGRESS_DONE,
};
use crate::rates::{clamp_u64, mean3, per_second, per_second_spec, sat_mul, NANOS_PER_SECOND};
use rayon::iter::{IntoParallelIterator, ParallelIterator};

verus! {

/// Iteration cap that bounds every timed loop, so that each loop provably
/// terminates even if the clock misbehaves.
pub const LOOP_GUARD: u64 = u64::MAX;

/// The modulus that keeps the multi-thread kernel's arithmetic bounded.
pub const KERNEL_MODULUS: u64 = 1_000_000;

/// Elements per multi-thread work chunk.
pub const CHUNK_SIZE: u64 = 100;

/// Result of one CPU workload run. Scores are operations per second;
/// the temperature fields carry the load proxy in whole percent.
#[derive(Debug, Clone, PartialEq, Eq, Structural)]
pub struct CpuTestResult {
    pub single_thread_score: u64,
    pub multi_thread_score: u64,
    pub floating_point_score: u64,
    pub average_temperature: u32,
    pub max_temperature: u32,
    pub test_duration: u64,
    pub operations_per_second: u64,
}

/// Configuration of one CPU workload run. A `thread_count` of 0 means "use
/// every available logical core".
#[derive(Debug, Clone, PartialEq, Eq, Structural)]
pub struct CpuTestConfig {
    pub thread_count: usize,
    pub test_duration: u64,
    pub enable_temperature_monitoring: bool,
}

pub struct CpuBenchmark {
    pub config: CpuTestConfig,
}

/// Relies on num_cpus::get: the number of logical CPUs available to this
/// process. Nothing numeric is promised; callers guard against 0 themselves.
#[verifier::external_body]
fn logical_cpu_count() -> usize {
    num_cpus::get()
}

/// One step of the multi-thread kernel's bounded arithmetic chain.
pub open spec fn chain_step(v: int, j: int) -> int {
    (v * j + j) % (KERNEL_MODULUS as int)
}

/// The kernel chain after steps `1..j` applied to `start`.
pub open spec fn chain_value(start: int, j: int) -> int
    decreases j,
{
    if j <= 1 {
        start
    } else {
        chain_step(chain_value(start, j - 1), j - 1)
    }
}

/// Computes one element of a multi-thread work chunk: a short chain of
/// bounded multiply-add steps seeded from the element index.
pub fn chunk_element(i: u64) -> (r: u64)
    ensures
        r == chain_value((i % 1000 + 1) as int, 10),
        r < KERNEL_MODULUS,
{
    let start: u64 = i % 1000 + 1;
    let mut val: u64 = start;
    let mut j: u64 = 1;
    while j < 10
        invariant
            1 <= j <= 10,
            val == chain_value(start as int, j as int),
            j == 1 ==> val == start,
            j > 1 ==> val < KERNEL_MODULUS,
            start <= 1000,
        decreases 10 - j,
    {
        assert((val as int) * (j as int) <= 9_000_000) by (nonlinear_arith)
            requires
                val <= 1_000_000,
                j <= 9,
        ;
        val = (val * j + j) % KERNEL_MODULUS;
        j = j + 1;
    }
    val
}

/// Adds two partial kernel values modulo the kernel modulus. Total on all
/// inputs, so that a parallel reduction may combine any two partial results.
pub fn add_mod_million(a: u64, b: u64) -> (r: u64)
    ensures
        r == (a + b) % (KERNEL_MODULUS as int),
        r < KERNEL_MODULUS,
{
    proof {
        lemma_add_mod_noop(a as int, b as int, KERNEL_MODULUS as int);
    }
    ((a % KERNEL_MODULUS) + (b % KERNEL_MODULUS)) % KERNEL_MODULUS
}

/// The bounded modular reduction of one whole chunk's elements.
pub open spec fn chunk_fold(k: int) -> int
    decreases k,
{
    if k <= 0 {
        0
    } else {
        (chunk_fold(k - 1) + chain_value((k - 1) % 1000 + 1, 10)) % (KERNEL_MODULUS as int)
    }
}

/// Computes a whole chunk's reduction sequentially; used as one parallel
/// task's unit of work.
pub fn chunk_value(chunk: u64) -> (r: u64)
    ensures
        r == chunk_fold(chunk as int),
        r < KERNEL_MODULUS,
{
    let mut acc: u64 = 0;
    let mut i: u64 = 0;
    while i < chunk
        invariant
            i <= chunk,
            acc == chunk_fold(i as int),
            acc < KERNEL_MODULUS,
        decreases chunk - i,
    {
        acc = add_mod_million(acc, chunk_element(i));
        i = i + 1;
    }
    acc
}

/// Relies on rayon's into_par_iter/map/reduce over `0..threads`: every
/// parallel task computes the library's own `chunk_value`, and partial
/// results are combined with the library's own `add_mod_million` starting
/// from the identity 0. Every combined value is below the kernel modulus,
/// so the reduction's result is too, whatever shape the reduction tree takes.
#[verifier::external_body]
fn parallel_round(threads: usize, chunk: u64) -> (r: u64)
    ensures
        r < KERNEL_MODULUS,
{
    (0..threads)
        .into_par_iter()
        .map(|_| chunk_value(chunk))
        .reduce(|| 0u64, |a, b| add_mod_million(a, b))
}

/// Elementary operations completed by `passes` single-thread passes: one
/// prime count plus 999 chain steps per pass, 1000 operations in all,
/// saturating at `u64::MAX`.
pub open spec fn single_thread_ops(passes: int) -> int {
    clamp_u64(passes * 1000)
}

/// Elementary operations completed by `rounds` multi-thread rounds across
/// `threads` workers of one chunk each, saturating at `u64::MAX`.
pub open spec fn multi_thread_ops(threads: int, rounds: int) -> int {
    clamp_u64(rounds * clamp_u64(threads * (CHUNK_SIZE as int)))
}

/// The sum of a sequence of load samples.
pub open spec fn sample_sum(s: Seq<u32>) -> int
    decreases s.len(),
{
    if s.len() == 0 {
        0
    } else {
        sample_sum(s.drop_last()) + s.last()
    }
}

/// The maximum of a sequence of load samples, 0 when empty.
pub open spec fn sample_max(s: Seq<u32>) -> int
    decreases s.len(),
{
    if s.len() == 0 {
        0
    } else if s.last() >= sample_max(s.drop_last()) {
        s.last() as int
    } else {
        sample_max(s.drop_last())
    }
}

/// The mean of a sequence of load samples, 0 when empty.
pub open spec fn sample_mean(s: Seq<u32>) -> int {
    if s.len() == 0 {
        0
    } else {
        sample_sum(s) / (s.len() as int)
    }
}

/// Every sample is bounded by the maximum, so the sum is bounded by
/// `len * max` and the mean by the max.
proof fn lemma_sample_sum_le_len_times_max(s: Seq<u32>)
    ensures
        sample_sum(s) >= 0,
        sample_sum(s) <= s.len() * sample_max(s),
        sample_max(s) >= 0,
    decreases s.len(),
{
    if s.len() > 0 {
        lemma_sample_sum_le_len_times_max(s.drop_last());
        let n = (s.len() - 1) as int;
        let m0 = sample_max(s.drop_last());
        let m = sample_max(s);
        lemma_mul_inequality(m0, m, n);
        assert(n * m0 <= n * m) by {
            lemma_mul_inequality(m0, m, n);
            assert(n * m0 == m0 * n) by (nonlinear_arith);
            assert(n * m == m * n) by (nonlinear_arith);
        }
        assert(n * m + m == (n + 1) * m) by (nonlinear_arith);
    }
}

/// Derives the load-proxy statistics `(mean, max)` from the collected
/// samples; `(0, 0)` when no samples were collected.
pub fn temperature_stats(samples: &Vec<u32>) -> (r: (u32, u32))
    ensures
        r.0 == sample_mean(samples@),
        r.1 == sample_max(samples@),
        r.0 <= r.1,
{
    let n = samples.len();
    if n == 0 {
        return (0, 0);
    }
    let mut sum: u128 = 0;
    let mut max: u32 = 0;
    let mut i: usize = 0;
    while i < n
        invariant
            0 <= i <= n,
            n == samples@.len(),
            sum == sample_sum(samples@.take(i as int)),
            max == sample_max(samples@.take(i as int)),
            sum <= (i as int) * 0x1_0000_0000,
        decreases n - i,
    {
        proof {
            assert(samples@.take(i + 1).drop_last() =~= samples@.take(i as int));
            lemma_sample_sum_le_len_times_max(samples@.take(i as int));
            assert((i as int) * 0x1_0000_0000 + 0x1_0000_0000 == ((i + 1) as int)
                * 0x1_0000_0000) by (nonlinear_arith);
        }
        let v = samples[i];
        sum = sum + (v as u128);
        if v > max {
            max = v;
        }
        i = i + 1;
    }
    proof {
        assert(samples@.take(n as int) =~= samples@);
        lemma_sample_sum_le_len_times_max(samples@);
        // mean <= max: sum <= len * max, so sum / len <= (len * max) / len == max.
        lemma_div_is_ordered(
            sample_sum(samples@),
            samples@.len() * sample_max(samples@),
            samples@.len() as int,
        );
        lemma_div_by_multiple(sample_max(samples@), samples@.len() as int);
    }
    let avg: u32 = (sum / (n as u128)) as u32;
    (avg, max)
}

impl CpuBenchmark {
    pub fn new(config: CpuTestConfig) -> (r: CpuBenchmark)
        ensures
            r.config == config,
    {
        CpuBenchmark { config }
    }

    /// Decides primality; the unit of work of the single-thread kernel.
    pub fn is_prime(&self, n: u64) -> (r: bool)
        ensures
            r == is_prime_spec(n as int),
    {
        crate::primes::is_prime(n)
    }

    /// Counts the primes up to `limit` by repeated primality tests.
    pub fn calculate_primes_up_to(&self, limit: u64) -> (r: u64)
        ensures
            r == prime_count_spec(limit as int),
    {
        count_primes_up_to(limit)
    }

    /// Runs the single-thread kernel for `duration_nanos`: repeated prime
    /// counting up to 10000 interleaved with a 999-step wrapping multiply-add
    /// chain, 1000 elementary operations per pass.
    pub fn run_single_thread_test_with_progress<S: ProgressSink>(
        &self,
        duration_nanos: u64,
        sink: &mut S,
    ) -> (r: Result<u64, BenchmarkError>)
        ensures
            r is Ok,
            extends_in_range(old(sink).reports(), final(sink).reports()),
            r matches Ok(score) ==> exists|passes: int, nanos: int|
                passes >= 0 && nanos >= 1 && score == #[trigger] per_second_spec(
                    single_thread_ops(passes),
                    nanos,
                ),
    {
        let ghost sink0 = sink.reports();
        let mut clock = WorkloadClock::start(duration_nanos, 100_000_000);
        let mut operations: u64 = 0;
        let ghost mut passes: int = 0;
        let mut acc: u64 = 1;
        let mut guard: u64 = 0;
        while guard < LOOP_GUARD && !clock.is_expired()
            invariant
                extends_in_range(sink0, sink.reports()),
                clock.target_nanos == duration_nanos,
                passes >= 0,
                operations == single_thread_ops(passes),
            decreases LOOP_GUARD - guard,
        {
            let _ = count_primes_up_to(10_000);
            operations = operations.saturating_add(1);
            let mut i: u64 = 1;
            while i < 1000
                invariant
                    1 <= i <= 1000,
                decreases 1000 - i,
            {
                proof {
                    assert((i as int) * (i as int) < 1_000_000) by (nonlinear_arith)
                        requires
                            i < 1000,
                    ;
                }
                acc = acc.wrapping_mul(i).wrapping_add(i * i);
                i = i + 1;
            }
            operations = operations.saturating_add(999);
            proof {
                assert((passes + 1) * 1000 == passes * 1000 + 1000) by (nonlinear_arith);
                passes = passes + 1;
            }
            if duration_nanos > 0 {
                let ghost pre = sink.reports();
                let p = progress_fraction(clock.elapsed_nanos(), duration_nanos);
                clock.maybe_report(sink, p, "单线程测试进行中...");
                proof {
                    lemma_extends_in_range_trans(sink0, pre, sink.reports());
                }
            }
            guard = guard + 1;
        }
        let elapsed = clock.elapsed_nanos_at_least_one();
        let score = per_second(operations, elapsed);
        proof {
            assert(score == per_second_spec(single_thread_ops(passes), elapsed as int));
        }
        Ok(score)
    }

    /// Runs the single-thread kernel without progress reporting.
    pub fn run_single_thread_test(&self, duration_nanos: u64) -> (r: Result<u64, BenchmarkError>)
        ensures
            r is Ok,
    {
        let mut sink = NullSink::new();
        self.run_single_thread_test_with_progress(duration_nanos, &mut sink)
    }

    /// Runs the multi-thread kernel for `duration_nanos`: repeated parallel
    /// rounds across the configured worker count (all logical cores when the
    /// configured count is 0), each worker reducing one bounded-arithmetic
    /// chunk; completed operations accumulate with saturating addition.
    pub fn run_multi_thread_test_with_progress<S: ProgressSink>(
        &self,
        duration_nanos: u64,
        sink: &mut S,
    ) -> (r: Result<u64, BenchmarkError>)
        ensures
            r is Ok,
            extends_in_range(old(sink).reports(), final(sink).reports()),
            final(sink).reports().len() > old(sink).reports().len(),
            final(sink).reports()[old(sink).reports().len() as int] == 0,
            r matches Ok(score) ==> exists|threads: int, rounds: int, nanos: int|
                threads >= 1 && rounds >= 0 && nanos >= 1 && (self.config.thread_count > 0
                    ==> threads == self.config.thread_count) && score
                    == #[trigger] per_second_spec(multi_thread_ops(threads, rounds), nanos),
    {
        let ghost sink0 = sink.reports();
        let threads: usize = if self.config.thread_count == 0 {
            let n = logical_cpu_count();
            if n == 0 {
                1
            } else {
                n
            }
        } else {
            self.config.thread_count
        };
        sink.report(0, "多线程测试开始...");
        proof {
            lemma_push_extends_in_range(sink0, 0);
        }
        let ghost base = sink.reports();
        let ops_per_round: u64 = sat_mul(threads as u64, CHUNK_SIZE);
        let mut clock = WorkloadClock::start(duration_nanos, 200_000_000);
        let mut total_operations: u64 = 0;
        let ghost mut rounds: int = 0;
        let mut acc: u64 = 0;
        let mut guard: u64 = 0;
        while guard < LOOP_GUARD && !clock.is_expired()
            invariant
                extends_in_range(base, sink.reports()),
                clock.target_nanos == duration_nanos,
                threads >= 1,
                self.config.thread_count > 0 ==> threads == self.config.thread_count,
                ops_per_round == clamp_u64((threads as int) * (CHUNK_SIZE as int)),
                rounds >= 0,
                total_operations == multi_thread_ops(threads as int, rounds),
            decreases LOOP_GUARD - guard,
        {
            let round = parallel_round(threads, CHUNK_SIZE);
            acc = acc.wrapping_add(round);
            total_operations = total_operations.saturating_add(ops_per_round);
            proof {
                let v = clamp_u64((threads as int) * (CHUNK_SIZE as int));
                assert((rounds + 1) * v == rounds * v + v) by (nonlinear_arith);
                rounds = rounds + 1;
            }
            if duration_nanos > 0 {
                let ghost pre = sink.reports();
                let p = progress_fraction(clock.elapsed_nanos(), duration_nanos);
                clock.maybe_report(sink, p, "多线程测试进行中...");
                proof {
                    lemma_extends_in_range_trans(base, pre, sink.reports());
                }
            }
            guard = guard + 1;
        }
        let elapsed = clock.elapsed_nanos_at_least_one();
        let score = per_second(total_operations, elapsed);
        proof {
            lemma_extends_in_range_trans(sink0, base, sink.reports());
            lemma_extends_preserves_index(base, sink.reports(), sink0.len() as int);
            assert(base[sink0.len() as int] == 0);
            assert(score == per_second_spec(
                multi_thread_ops(threads as int, rounds),
                elapsed as int,
            ));
        }
        Ok(score)
    }

    /// Runs the multi-thread kernel without progress reporting.
    pub fn run_multi_thread_test(&self, duration_nanos: u64) -> (r: Result<u64, BenchmarkError>)
        ensures
            r is Ok,
    {
        let mut sink = NullSink::new();
        self.run_multi_thread_test_with_progress(duration_nanos, &mut sink)
    }

    /// Runs the full CPU workload and assembles its result.
    ///
    /// The floating-point kernel's score is measured by the caller (this
    /// library holds no floating-point code) and handed in, as are the
    /// load-proxy samples; both are folded into the result exactly as
    /// specified. Reports 0.00% first and exactly 100.00% last.
    pub fn run_benchmark_with_progress<S: ProgressSink>(
        &self,
        sink: &mut S,
        floating_point_score: u64,
        usage_samples: &Vec<u32>,
    ) -> (r: Result<CpuTestResult, BenchmarkError>)
        ensures
            r is Ok,
            extends_in_range(old(sink).reports(), final(sink).reports()),
            final(sink).reports().len() > old(sink).reports().len(),
            final(sink).reports()[old(sink).reports().len() as int] == 0,
            final(sink).reports().last() == PROGRESS_DONE,
            r matches Ok(res) ==> {
                &&& res.floating_point_score == floating_point_score
                &&& res.test_duration == self.config.test_duration
                &&& res.operations_per_second == (res.single_thread_score
                    + res.multi_thread_score + res.floating_point_score) / 3
                &&& self.config.enable_temperature_monitoring ==> {
                    &&& res.average_temperature == sample_mean(usage_samples@)
                    &&& res.max_temperature == sample_max(usage_samples@)
                }
                &&& !self.config.enable_temperature_monitoring ==> {
                    &&& res.average_temperature == 0
                    &&& res.max_temperature == 0
                }
            },
    {
        let ghost sink0 = sink.reports();
        let duration_nanos = match self.config.test_duration.checked_mul(NANOS_PER_SECOND) {
            Some(n) => n,
            None => u64::MAX,
        };

        sink.report(0, "开始单线程CPU测试...");
        proof {
            lemma_push_extends_in_range(sink0, 0);
        }
        let ghost s1 = sink.reports();
        let single_thread_score = match self.run_single_thread_test_with_progress(
            duration_nanos,
            sink,
        ) {
            Ok(s) => s,
            Err(_) => vstd::pervasive::unreached(),
        };
        proof {
            lemma_extends_in_range_trans(sink0, s1, sink.reports());
        }

        let ghost s2a = sink.reports();
        sink.report(3330, "开始多线程CPU测试...");
        proof {
            lemma_push_extends_in_range(s2a, 3330);
            lemma_extends_in_range_trans(sink0, s2a, sink.reports());
            lemma_extends_in_range_trans(s1, s2a, sink.reports());
        }
        let ghost s2 = sink.reports();
        let multi_thread_score = match self.run_multi_thread_test_with_progress(
            duration_nanos,
            sink,
        ) {
            Ok(s) => s,
            Err(_) => vstd::pervasive::unreached(),
        };
        proof {
            lemma_extends_in_range_trans(sink0, s2, sink.reports());
            lemma_extends_in_range_trans(s1, s2, sink.reports());
        }

        let ghost s3 = sink.reports();
        sink.report(6660, "开始浮点运算测试...");
        proof {
            lemma_push_extends_in_range(s3, 6660);
            lemma_extends_in_range_trans(sink0, s3, sink.reports());
            lemma_extends_in_range_trans(s1, s3, sink.reports());
        }

        let ghost s4 = sink.reports();
        sink.report(9000, "收集温度数据...");
        proof {
            lemma_push_extends_in_range(s4, 9000);
            lemma_extends_in_range_trans(sink0, s4, sink.reports());
            lemma_extends_in_range_trans(s1, s4, sink.reports());
        }
        let (avg_temp, max_temp) = if self.config.enable_temperature_monitoring {
            temperature_stats(usage_samples)
        } else {
            (0, 0)
        };

        let operations_per_second = mean3(
            single_thread_score,
            multi_thread_score,
            floating_point_score,
        );

        let ghost s5 = sink.reports();
        sink.report(PROGRESS_DONE, "CPU测试完成");
        proof {
            lemma_push_extends_in_range(s5, PROGRESS_DONE);
            lemma_extends_in_range_trans(sink0, s5, sink.reports());
            lemma_extends_in_range_trans(s1, s5, sink.reports());
            lemma_extends_preserves_index(s1, sink.reports(), sink0.len() as int);
            assert(s1[sink0.len() as int] == 0);
        }

        Ok(CpuTestResult {
            single_thread_score,
            multi_thread_score,
            floating_point_score,
            average_temperature: avg_temp,
            max_temperature: max_temp,
            test_duration: self.config.test_duration,
            operations_per_second,
        })
    }

    /// Runs the full CPU workload without progress reporting.
    pub fn run_benchmark(&self, floating_point_score: u64, usage_samples: &Vec<u32>) -> (r:
        Result<CpuTestResult, BenchmarkError>)
        ensures
            r is Ok,
            r matches Ok(res) ==> {
                &&& res.floating_point_score == floating_point_score
                &&& res.test_duration == self.config.test_duration
                &&& res.operations_per_second == (res.single_thread_score
                    + res.multi_thread_score + res.floating_point_score) / 3
            },
    {
        let mut sink = NullSink::new();
        self.run_benchmark_with_progress(&mut sink, floating_point_score, usage_samples)
    }
}

} // verus!

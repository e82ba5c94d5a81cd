//! Memory workload: sequential-read, sequential-write, random-access and
//! pointer-chase latency kernels against an in-process buffer.
//!
//! The kernels are iteration-bound, not wall-clock-bound (except the latency
//! kernel, which performs a fixed number of dependent accesses). Each read
//! kernel folds what it reads into a checksum so the measured loop cannot be
//! eliminated as dead code; a checksum of exactly zero is reported as an
//! internal consistency error rather than a silent bogus result. The
//! checksums are deterministic functions of the configuration, specified
//! exactly below.

use vstd::prelude::*;
use vstd::arithmetic::div_mod::{lemma_add_mod_noop, lemma_small_mod};
use crate::clock::{progress_fraction, progress_fraction_spec, WorkloadClock};
use crate::error::BenchmarkError;
use crate::lcg::{lcg_next, lcg_next_spec};
use crate::progress::{
    extends_in_range, lemma_extends_in_range_trans, lemma_extends_preserves_index,
    lemma_push_extends_in_range, NullSink, ProgressSink, PROGRESS_DONE,
};
use crate::rates::{clamp_u64, mb_per_second, mb_per_second_spec, sat_mul, wrap_add,
    BYTES_PER_MEGABYTE};
use crate::system_info::{refresh_memory, system_new_all, used_memory};

verus! {

/// Random picks per configured iteration of the random-access kernel.
pub const RANDOM_PICKS_PER_ITERATION: u64 = 10_000;

/// Slots in the pointer-chase buffer: 64 KiB of 8-byte slots.
pub const LATENCY_SLOT_COUNT: u64 = 8_192;

/// Dependent accesses performed by the latency kernel.
pub const LATENCY_ACCESSES: u64 = 1_000_000;

/// Picoseconds per access when one million accesses took `nanos`
/// nanoseconds in all.
pub open spec fn latency_ps_spec(nanos: int) -> int {
    nanos * 1000 / (LATENCY_ACCESSES as int)
}

/// Result of one memory workload run. Speeds are in whole MB/s, the
/// pointer-chase latency is in picoseconds per access, the peak usage delta
/// in whole megabytes. `error_rate` is reserved and currently always 0.
#[derive(Debug, Clone, PartialEq, Eq, Structural)]
pub struct MemoryTestResult {
    pub sequential_read_speed: u64,
    pub sequential_write_speed: u64,
    pub random_access_speed: u64,
    pub latency: u64,
    pub memory_usage_peak: u64,
    pub error_rate: u64,
    pub test_duration: u64,
}

/// Configuration of one memory workload run; `buffer_size` is in megabytes.
#[derive(Debug, Clone, PartialEq, Eq, Structural)]
pub struct MemoryTestConfig {
    pub buffer_size: usize,
    pub iterations: usize,
    pub test_duration: u64,
    pub enable_usage_monitoring: bool,
}

pub struct MemoryBenchmark {
    pub config: MemoryTestConfig,
}

/// The deterministic fill pattern of the test buffer: byte `i` holds
/// `i mod 256`.
pub open spec fn fill_byte(i: int) -> u8 {
    (i % 256) as u8
}

/// A freshly filled test buffer of `len` bytes.
pub open spec fn fill_seq(len: nat) -> Seq<u8> {
    Seq::new(len, |i: int| fill_byte(i))
}

/// The plain sum of the first `n` fill-pattern bytes.
pub open spec fn fill_sum(n: int) -> int
    decreases n,
{
    if n <= 0 {
        0
    } else {
        fill_sum(n - 1) + (n - 1) % 256
    }
}

/// The sequential-read checksum: every pass adds every buffer byte, wrapping
/// modulo 2^64.
pub open spec fn seq_read_checksum(len: int, iterations: int) -> int {
    (iterations * fill_sum(len)) % 0x1_0000_0000_0000_0000
}

/// One pick of the random-access kernel: advance the generator, read (and
/// fold into the checksum) the byte it indexes, then overwrite that byte
/// with the generator's low bits.
pub open spec fn random_access_step(buf: Seq<u8>, state: u64, cs: u64) -> (Seq<u8>, u64, u64)
    recommends
        buf.len() > 0,
{
    let s1 = lcg_next_spec(state as int) as u64;
    let idx = (s1 as int) % (buf.len() as int);
    let cs1 = (((cs as int) + (buf[idx] as int)) % 0x1_0000_0000_0000_0000) as u64;
    (buf.update(idx, (((s1 as int) % 256) as u8)), s1, cs1)
}

/// The random-access kernel state after `k` picks.
pub open spec fn random_access_run(buf: Seq<u8>, state: u64, cs: u64, k: nat) -> (
    Seq<u8>,
    u64,
    u64,
)
    decreases k,
{
    if k == 0 {
        (buf, state, cs)
    } else {
        let prev = random_access_run(buf, state, cs, (k - 1) as nat);
        random_access_step(prev.0, prev.1, prev.2)
    }
}

/// The random-access checksum over a fresh buffer of `len` bytes after
/// `iterations` iterations of the kernel.
pub open spec fn random_access_checksum(len: nat, iterations: nat) -> u64 {
    random_access_run(fill_seq(len), 12345u64, 0u64, iterations * (RANDOM_PICKS_PER_ITERATION
        as nat)).2
}

/// Allocates and deterministically fills a test buffer.
fn make_filled_buffer(len: usize) -> (r: Vec<u8>)
    ensures
        r@ == fill_seq(len as nat),
{
    let mut buffer: Vec<u8> = Vec::new();
    let mut i: usize = 0;
    while i < len
        invariant
            i <= len,
            buffer@.len() == i,
            forall|j: int| 0 <= j < i ==> buffer@[j] == fill_byte(j),
        decreases len - i,
    {
        buffer.push((i % 256) as u8);
        i = i + 1;
    }
    proof {
        assert(buffer@ =~= fill_seq(len as nat));
    }
    buffer
}

/// The growth in resident memory between two readings, in whole megabytes,
/// floored at zero: a shrink is never reported as a negative delta.
pub fn resident_delta_mb(before_bytes: u64, after_bytes: u64) -> (r: u64)
    ensures
        r == (if after_bytes >= before_bytes {
            ((after_bytes - before_bytes) as u64) / BYTES_PER_MEGABYTE
        } else {
            0u64
        }),
{
    after_bytes.saturating_sub(before_bytes) / BYTES_PER_MEGABYTE
}

impl MemoryBenchmark {
    pub fn new(config: MemoryTestConfig) -> (r: MemoryBenchmark)
        ensures
            r.config == config,
    {
        MemoryBenchmark { config }
    }

    /// The configured buffer size in bytes.
    pub open spec fn buffer_bytes(&self) -> int {
        (self.config.buffer_size as int) * (BYTES_PER_MEGABYTE as int)
    }

    /// The configuration fits the machine: the buffer is allocatable and
    /// non-empty (the random-access kernel indexes modulo its length).
    pub open spec fn config_fits(&self) -> bool {
        &&& self.config.buffer_size >= 1
        &&& self.buffer_bytes() <= usize::MAX
    }

    fn buffer_len(&self) -> (r: usize)
        requires
            self.config_fits(),
        ensures
            r == self.buffer_bytes(),
            r >= 1,
    {
        self.config.buffer_size * (BYTES_PER_MEGABYTE as usize)
    }

    /// Streams through the whole buffer `iterations` times in order, folding
    /// every byte into a wrapping checksum. Errs exactly when that checksum
    /// works out to zero (the anti-optimization guard firing).
    pub fn test_sequential_read_with_progress<S: ProgressSink>(&self, sink: &mut S) -> (r: Result<
        u64,
        BenchmarkError,
    >)
        requires
            self.config_fits(),
        ensures
            extends_in_range(old(sink).reports(), final(sink).reports()),
            final(sink).reports().len() == old(sink).reports().len()
                + self.config.iterations,
            forall|j: int|
                old(sink).reports().len() <= j < final(sink).reports().len()
                    ==> final(sink).reports()[j] == progress_fraction_spec(
                    j - old(sink).reports().len() + 1,
                    self.config.iterations as int,
                ),
            r is Err <==> seq_read_checksum(self.buffer_bytes(), self.config.iterations as int)
                == 0,
            r matches Err(e) ==> e matches BenchmarkError::MemoryTestError(_),
            r matches Ok(speed) ==> exists|nanos: int|
                nanos >= 1 && speed == #[trigger] mb_per_second_spec(
                    clamp_u64((self.config.iterations as int) * self.buffer_bytes()),
                    nanos,
                ),
    {
        let ghost sink0 = sink.reports();
        let len = self.buffer_len();
        let buffer = make_filled_buffer(len);
        let iterations = self.config.iterations;

        let clock = WorkloadClock::start(0, 0);
        let mut checksum: u64 = 0;
        let mut it: usize = 0;
        while it < iterations
            invariant
                extends_in_range(sink0, sink.reports()),
                sink.reports().len() == sink0.len() + it,
                forall|j: int|
                    sink0.len() <= j < sink.reports().len() ==> sink.reports()[j]
                        == progress_fraction_spec(j - sink0.len() + 1, iterations as int),
                buffer@ == fill_seq(len as nat),
                buffer@.len() == len,
                iterations == self.config.iterations,
                it <= iterations,
                checksum == (it * fill_sum(len as int)) % 0x1_0000_0000_0000_0000,
            decreases iterations - it,
        {
            let mut i: usize = 0;
            while i < len
                invariant
                    buffer@ == fill_seq(len as nat),
                    buffer@.len() == len,
                    i <= len,
                    checksum == ((it as int) * fill_sum(len as int) + fill_sum(i as int))
                        % 0x1_0000_0000_0000_0000,
                decreases len - i,
            {
                let b = buffer[i];
                proof {
                    let m: int = 0x1_0000_0000_0000_0000;
                    let x: int = (it as int) * fill_sum(len as int) + fill_sum(i as int);
                    lemma_add_mod_noop(x, b as int, m);
                    lemma_small_mod(b as nat, m as nat);
                    assert(b as int == (i as int) % 256);
                    assert(fill_sum(i as int + 1) == fill_sum(i as int) + (i as int) % 256);
                }
                checksum = wrap_add(checksum, b as u64);
                i = i + 1;
            }
            proof {
                let f: int = fill_sum(len as int);
                assert((it as int) * f + f == ((it as int) + 1) * f) by (nonlinear_arith);
            }
            it = it + 1;
            let ghost pre = sink.reports();
            let p = progress_fraction(it as u64, iterations as u64);
            sink.report(p, "顺序读取测试进行中...");
            proof {
                lemma_push_extends_in_range(pre, p);
                lemma_extends_in_range_trans(sink0, pre, sink.reports());
            }
        }

        let total_bytes = sat_mul(iterations as u64, len as u64);
        let elapsed = clock.elapsed_nanos_at_least_one();
        if checksum == 0 {
            return Err(BenchmarkError::MemoryTestError("Checksum error".to_string()));
        }
        Ok(mb_per_second(total_bytes, elapsed))
    }

    /// Sequential-read kernel without progress reporting.
    pub fn test_sequential_read(&self) -> (r: Result<u64, BenchmarkError>)
        requires
            self.config_fits(),
        ensures
            r is Err <==> seq_read_checksum(self.buffer_bytes(), self.config.iterations as int)
                == 0,
    {
        let mut sink = NullSink::new();
        self.test_sequential_read_with_progress(&mut sink)
    }

    /// Stamps every byte of the buffer with a pass-dependent pattern,
    /// `iterations` times.
    pub fn test_sequential_write_with_progress<S: ProgressSink>(&self, sink: &mut S) -> (r: Result<
        u64,
        BenchmarkError,
    >)
        requires
            self.config_fits(),
        ensures
            extends_in_range(old(sink).reports(), final(sink).reports()),
            final(sink).reports().len() == old(sink).reports().len()
                + self.config.iterations,
            forall|j: int|
                old(sink).reports().len() <= j < final(sink).reports().len()
                    ==> final(sink).reports()[j] == progress_fraction_spec(
                    j - old(sink).reports().len() + 1,
                    self.config.iterations as int,
                ),
            r is Ok,
            r matches Ok(speed) ==> exists|nanos: int|
                nanos >= 1 && speed == #[trigger] mb_per_second_spec(
                    clamp_u64((self.config.iterations as int) * self.buffer_bytes()),
                    nanos,
                ),
    {
        let ghost sink0 = sink.reports();
        let len = self.buffer_len();
        let mut buffer: Vec<u8> = Vec::new();
        let mut i: usize = 0;
        while i < len
            invariant
                i <= len,
                buffer@.len() == i,
            decreases len - i,
        {
            buffer.push(0);
            i = i + 1;
        }
        let iterations = self.config.iterations;

        let clock = WorkloadClock::start(0, 0);
        let mut it: usize = 0;
        while it < iterations
            invariant
                extends_in_range(sink0, sink.reports()),
                sink.reports().len() == sink0.len() + it,
                forall|j: int|
                    sink0.len() <= j < sink.reports().len() ==> sink.reports()[j]
                        == progress_fraction_spec(j - sink0.len() + 1, iterations as int),
                buffer@.len() == len,
                iterations == self.config.iterations,
                it <= iterations,
            decreases iterations - it,
        {
            let pattern = (it % 256) as u8;
            let mut j: usize = 0;
            while j < len
                invariant
                    buffer@.len() == len,
                    j <= len,
                decreases len - j,
            {
                buffer.set(j, pattern);
                j = j + 1;
            }
            it = it + 1;
            let ghost pre = sink.reports();
            let p = progress_fraction(it as u64, iterations as u64);
            sink.report(p, "顺序写入测试进行中...");
            proof {
                lemma_push_extends_in_range(pre, p);
                lemma_extends_in_range_trans(sink0, pre, sink.reports());
            }
        }

        let total_bytes = sat_mul(iterations as u64, len as u64);
        let elapsed = clock.elapsed_nanos_at_least_one();
        Ok(mb_per_second(total_bytes, elapsed))
    }

    /// Sequential-write kernel without progress reporting.
    pub fn test_sequential_write(&self) -> (r: Result<u64, BenchmarkError>)
        requires
            self.config_fits(),
        ensures
            r is Ok,
    {
        let mut sink = NullSink::new();
        self.test_sequential_write_with_progress(&mut sink)
    }

    /// Performs 10000 generator-driven picks per iteration; each pick reads
    /// one byte into the checksum and overwrites it with fresh generator
    /// bits. Each pick counts as two byte-sized operations. Errs exactly
    /// when the final checksum is zero.
    pub fn test_random_access_with_progress<S: ProgressSink>(&self, sink: &mut S) -> (r: Result<
        u64,
        BenchmarkError,
    >)
        requires
            self.config_fits(),
        ensures
            extends_in_range(old(sink).reports(), final(sink).reports()),
            final(sink).reports().len() == old(sink).reports().len()
                + self.config.iterations,
            forall|j: int|
                old(sink).reports().len() <= j < final(sink).reports().len()
                    ==> final(sink).reports()[j] == progress_fraction_spec(
                    j - old(sink).reports().len() + 1,
                    self.config.iterations as int,
                ),
            r is Err <==> random_access_checksum(
                self.buffer_bytes() as nat,
                self.config.iterations as nat,
            ) == 0,
            r matches Err(e) ==> e matches BenchmarkError::MemoryTestError(_),
            r matches Ok(speed) ==> exists|nanos: int|
                nanos >= 1 && speed == #[trigger] mb_per_second_spec(
                    clamp_u64(
                        clamp_u64((self.config.iterations as int) * (
                        RANDOM_PICKS_PER_ITERATION as int)) * 2,
                    ),
                    nanos,
                ),
    {
        let ghost sink0 = sink.reports();
        let len = self.buffer_len();
        let mut buffer = make_filled_buffer(len);
        let iterations = self.config.iterations;
        let ghost init_buf = fill_seq(len as nat);

        let clock = WorkloadClock::start(0, 0);
        let mut state: u64 = 12345;
        let mut checksum: u64 = 0;
        let mut it: usize = 0;
        while it < iterations
            invariant
                extends_in_range(sink0, sink.reports()),
                sink.reports().len() == sink0.len() + it,
                forall|j: int|
                    sink0.len() <= j < sink.reports().len() ==> sink.reports()[j]
                        == progress_fraction_spec(j - sink0.len() + 1, iterations as int),
                len >= 1,
                len == self.buffer_bytes(),
                buffer@.len() == len,
                iterations == self.config.iterations,
                it <= iterations,
                init_buf == fill_seq(len as nat),
                (buffer@, state, checksum) == random_access_run(
                    init_buf,
                    12345u64,
                    0u64,
                    (it as nat) * (RANDOM_PICKS_PER_ITERATION as nat),
                ),
            decreases iterations - it,
        {
            let mut k: u64 = 0;
            while k < RANDOM_PICKS_PER_ITERATION
                invariant
                    len >= 1,
                    buffer@.len() == len,
                    k <= RANDOM_PICKS_PER_ITERATION,
                    init_buf == fill_seq(len as nat),
                    (buffer@, state, checksum) == random_access_run(
                        init_buf,
                        12345u64,
                        0u64,
                        ((it as nat) * (RANDOM_PICKS_PER_ITERATION as nat) + k) as nat,
                    ),
                decreases RANDOM_PICKS_PER_ITERATION - k,
            {
                let ghost picks: nat = ((it as nat) * (RANDOM_PICKS_PER_ITERATION as nat)
                    + k) as nat;
                let ghost prev = (buffer@, state, checksum);
                state = lcg_next(state);
                let idx64 = state % (len as u64);
                let idx = idx64 as usize;
                let b = buffer[idx];
                proof {
                    let m: int = 0x1_0000_0000_0000_0000;
                    lemma_add_mod_noop(checksum as int, b as int, m);
                    lemma_small_mod(checksum as nat, m as nat);
                    lemma_small_mod(b as nat, m as nat);
                }
                checksum = wrap_add(checksum, b as u64);
                buffer.set(idx, (state % 256) as u8);
                proof {
                    let stepped = random_access_step(prev.0, prev.1, prev.2);
                    assert(random_access_run(init_buf, 12345u64, 0u64, (picks + 1) as nat)
                        == stepped);
                    assert(buffer@ == stepped.0);
                    assert(state == stepped.1);
                    assert(checksum == stepped.2);
                }
                k = k + 1;
            }
            it = it + 1;
            proof {
                assert((it - 1) * (RANDOM_PICKS_PER_ITERATION as int) + (
                    RANDOM_PICKS_PER_ITERATION as int) == (it as int) * (
                    RANDOM_PICKS_PER_ITERATION as int)) by (nonlinear_arith);
            }
            let ghost pre = sink.reports();
            let p = progress_fraction(it as u64, iterations as u64);
            sink.report(p, "随机访问测试进行中...");
            proof {
                lemma_push_extends_in_range(pre, p);
                lemma_extends_in_range_trans(sink0, pre, sink.reports());
            }
        }

        let total_accesses = sat_mul(sat_mul(iterations as u64, RANDOM_PICKS_PER_ITERATION), 2);
        let elapsed = clock.elapsed_nanos_at_least_one();
        if checksum == 0 {
            return Err(BenchmarkError::MemoryTestError("Checksum error".to_string()));
        }
        Ok(mb_per_second(total_accesses, elapsed))
    }

    /// Random-access kernel without progress reporting.
    pub fn test_random_access(&self) -> (r: Result<u64, BenchmarkError>)
        requires
            self.config_fits(),
        ensures
            r is Err <==> random_access_checksum(
                self.buffer_bytes() as nat,
                self.config.iterations as nat,
            ) == 0,
    {
        let mut sink = NullSink::new();
        self.test_random_access_with_progress(&mut sink)
    }

    /// Builds a 64 KiB buffer whose slots hold generator-derived chase
    /// indexes, then performs one million data-dependent lookups
    /// `index = buffer[index]`. Reports the measured latency in picoseconds
    /// per access.
    pub fn test_memory_latency_with_progress<S: ProgressSink>(&self, sink: &mut S) -> (r: Result<
        u64,
        BenchmarkError,
    >)
        ensures
            extends_in_range(old(sink).reports(), final(sink).reports()),
            r is Ok,
            r matches Ok(latency) ==> exists|nanos: int|
                nanos >= 1 && latency == #[trigger] latency_ps_spec(nanos),
    {
        let ghost sink0 = sink.reports();
        let slots: usize = LATENCY_SLOT_COUNT as usize;
        let mut buffer: Vec<u64> = Vec::new();
        let mut state: u64 = 54321;
        let mut i: usize = 0;
        while i < slots
            invariant
                i <= slots,
                slots == LATENCY_SLOT_COUNT,
                buffer@.len() == i,
                forall|j: int| 0 <= j < i ==> buffer@[j] < LATENCY_SLOT_COUNT,
            decreases slots - i,
        {
            state = lcg_next(state);
            buffer.push(state % LATENCY_SLOT_COUNT);
            i = i + 1;
        }

        let mut clock = WorkloadClock::start(0, 100_000_000);
        let mut index: u64 = 0;
        let mut n: u64 = 0;
        while n < LATENCY_ACCESSES
            invariant
                extends_in_range(sink0, sink.reports()),
                buffer@.len() == LATENCY_SLOT_COUNT,
                forall|j: int| 0 <= j < buffer@.len() ==> buffer@[j] < LATENCY_SLOT_COUNT,
                index < LATENCY_SLOT_COUNT,
                n <= LATENCY_ACCESSES,
            decreases LATENCY_ACCESSES - n,
        {
            index = buffer[index as usize];
            if n % 100_000 == 0 {
                let ghost pre = sink.reports();
                let p = progress_fraction(n, LATENCY_ACCESSES);
                clock.maybe_report(sink, p, "内存延迟测试进行中...");
                proof {
                    lemma_extends_in_range_trans(sink0, pre, sink.reports());
                }
            }
            n = n + 1;
        }

        let elapsed = clock.elapsed_nanos_at_least_one();
        // The chase indexes stay in bounds by construction; the guard is the
        // kernel's anti-optimization check.
        if (index as usize) >= buffer.len() {
            return Err(BenchmarkError::MemoryTestError("Index out of bounds".to_string()));
        }
        proof {
            let x = elapsed as int;
            vstd::arithmetic::div_mod::lemma_div_by_multiple(x, 1000);
            vstd::arithmetic::div_mod::lemma_div_denominator(x * 1000, 1000, 1000);
            assert(latency_ps_spec(x) == x / 1000);
        }
        Ok(elapsed / 1000)
    }

    /// Latency kernel without progress reporting.
    pub fn test_memory_latency(&self) -> (r: Result<u64, BenchmarkError>)
        ensures
            r is Ok,
    {
        let mut sink = NullSink::new();
        self.test_memory_latency_with_progress(&mut sink)
    }

    /// Measures the growth in resident memory while a probe buffer of the
    /// configured size is held: two provider readings around the allocation,
    /// reduced by [`resident_delta_mb`]. The readings are machine state, so
    /// only the reduction is specified.
    pub fn monitor_memory_usage(&self) -> (r: Result<u64, BenchmarkError>)
        requires
            self.config_fits(),
        ensures
            r is Ok,
    {
        let mut sys = system_new_all();
        refresh_memory(&mut sys);
        let initial_used = used_memory(&sys);

        let len = self.buffer_len();
        let mut probe: Vec<u8> = Vec::new();
        let mut i: usize = 0;
        while i < len
            invariant
                i <= len,
            decreases len - i,
        {
            probe.push(0);
            i = i + 1;
        }

        refresh_memory(&mut sys);
        let peak_used = used_memory(&sys);
        Ok(resident_delta_mb(initial_used, peak_used))
    }

    /// Runs the four memory kernels in order (sequential read, sequential
    /// write, random access, latency), optionally measures the peak resident
    /// delta, and assembles the result. Reports 0.00% first and exactly
    /// 100.00% last on success; fails exactly when one of the kernels'
    /// checksums works out to zero.
    pub fn run_benchmark_with_progress<S: ProgressSink>(&self, sink: &mut S) -> (r: Result<
        MemoryTestResult,
        BenchmarkError,
    >)
        requires
            self.config_fits(),
        ensures
            extends_in_range(old(sink).reports(), final(sink).reports()),
            r is Ok <==> seq_read_checksum(self.buffer_bytes(), self.config.iterations as int)
                != 0 && random_access_checksum(
                self.buffer_bytes() as nat,
                self.config.iterations as nat,
            ) != 0,
            r matches Err(e) ==> e matches BenchmarkError::MemoryTestError(_),
            final(sink).reports().len() > old(sink).reports().len(),
            final(sink).reports()[old(sink).reports().len() as int] == 0,
            r is Ok ==> final(sink).reports().last() == PROGRESS_DONE,
            r matches Ok(m) ==> {
                &&& m.error_rate == 0
                &&& m.test_duration >= 1
                &&& !self.config.enable_usage_monitoring ==> m.memory_usage_peak == 0
                &&& exists|nanos: int|
                    nanos >= 1 && m.sequential_read_speed == #[trigger] mb_per_second_spec(
                        clamp_u64((self.config.iterations as int) * self.buffer_bytes()),
                        nanos,
                    )
                &&& exists|nanos: int|
                    nanos >= 1 && m.sequential_write_speed == #[trigger] mb_per_second_spec(
                        clamp_u64((self.config.iterations as int) * self.buffer_bytes()),
                        nanos,
                    )
                &&& exists|nanos: int|
                    nanos >= 1 && m.latency == #[trigger] latency_ps_spec(nanos)
            },
    {
        let ghost sink0 = sink.reports();
        let clock = WorkloadClock::start(0, 0);

        sink.report(0, "开始内存顺序读取测试...");
        proof {
            lemma_push_extends_in_range(sink0, 0);
        }
        let ghost s1 = sink.reports();
        let sequential_read_speed = match self.test_sequential_read_with_progress(sink) {
            Ok(v) => v,
            Err(e) => {
                proof {
                    lemma_extends_in_range_trans(sink0, s1, sink.reports());
                    lemma_extends_preserves_index(s1, sink.reports(), sink0.len() as int);
                }
                return Err(e);
            },
        };
        proof {
            lemma_extends_in_range_trans(sink0, s1, sink.reports());
        }

        let ghost s2a = sink.reports();
        sink.report(2500, "开始内存顺序写入测试...");
        proof {
            lemma_push_extends_in_range(s2a, 2500);
            lemma_extends_in_range_trans(sink0, s2a, sink.reports());
            lemma_extends_in_range_trans(s1, s2a, sink.reports());
        }
        let ghost s2 = sink.reports();
        let sequential_write_speed = match self.test_sequential_write_with_progress(sink) {
            Ok(v) => v,
            Err(_) => vstd::pervasive::unreached(),
        };
        proof {
            lemma_extends_in_range_trans(sink0, s2, sink.reports());
            lemma_extends_in_range_trans(s1, s2, sink.reports());
        }

        let ghost s3a = sink.reports();
        sink.report(5000, "开始内存随机访问测试...");
        proof {
            lemma_push_extends_in_range(s3a, 5000);
            lemma_extends_in_range_trans(sink0, s3a, sink.reports());
            lemma_extends_in_range_trans(s1, s3a, sink.reports());
        }
        let ghost s3 = sink.reports();
        let random_access_speed = match self.test_random_access_with_progress(sink) {
            Ok(v) => v,
            Err(e) => {
                proof {
                    lemma_extends_in_range_trans(sink0, s3, sink.reports());
                    lemma_extends_in_range_trans(s1, s3, sink.reports());
                    lemma_extends_preserves_index(s1, sink.reports(), sink0.len() as int);
                }
                return Err(e);
            },
        };
        proof {
            lemma_extends_in_range_trans(sink0, s3, sink.reports());
            lemma_extends_in_range_trans(s1, s3, sink.reports());
        }

        let ghost s4a = sink.reports();
        sink.report(7500, "开始内存延迟测试...");
        proof {
            lemma_push_extends_in_range(s4a, 7500);
            lemma_extends_in_range_trans(sink0, s4a, sink.reports());
            lemma_extends_in_range_trans(s1, s4a, sink.reports());
        }
        let ghost s4 = sink.reports();
        let latency = match self.test_memory_latency_with_progress(sink) {
            Ok(v) => v,
            Err(_) => vstd::pervasive::unreached(),
        };
        proof {
            lemma_extends_in_range_trans(sink0, s4, sink.reports());
            lemma_extends_in_range_trans(s1, s4, sink.reports());
        }

        let ghost s5a = sink.reports();
        sink.report(9000, "监控内存使用量...");
        proof {
            lemma_push_extends_in_range(s5a, 9000);
            lemma_extends_in_range_trans(sink0, s5a, sink.reports());
            lemma_extends_in_range_trans(s1, s5a, sink.reports());
        }
        let memory_usage_peak = if self.config.enable_usage_monitoring {
            match self.monitor_memory_usage() {
                Ok(v) => v,
                Err(_) => vstd::pervasive::unreached(),
            }
        } else {
            0
        };

        let elapsed_secs = clock.elapsed_nanos_at_least_one() / crate::rates::NANOS_PER_SECOND;
        let test_duration = if elapsed_secs == 0 {
            1
        } else {
            elapsed_secs
        };

        let ghost s6 = sink.reports();
        sink.report(PROGRESS_DONE, "内存测试完成");
        proof {
            lemma_push_extends_in_range(s6, PROGRESS_DONE);
            lemma_extends_in_range_trans(sink0, s6, sink.reports());
            lemma_extends_in_range_trans(s1, s6, sink.reports());
            lemma_extends_preserves_index(s1, sink.reports(), sink0.len() as int);
        }

        Ok(
            MemoryTestResult {
                sequential_read_speed,
                sequential_write_speed,
                random_access_speed,
                latency,
                memory_usage_peak,
                error_rate: 0,
                test_duration,
            },
        )
    }

    /// Runs the memory workload without progress reporting.
    pub fn run_benchmark(&self) -> (r: Result<MemoryTestResult, BenchmarkError>)
        requires
            self.config_fits(),
        ensures
            r is Ok <==> seq_read_checksum(self.buffer_bytes(), self.config.iterations as int)
                != 0 && random_access_checksum(
                self.buffer_bytes() as nat,
                self.config.iterations as nat,
            ) != 0,
            r matches Ok(m) ==> m.error_rate == 0 && m.test_duration >= 1,
    {
        let mut sink = NullSink::new();
        self.run_benchmark_with_progress(&mut sink)
    }
}

} // verus!

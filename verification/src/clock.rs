//! Timing and throttled progress for one workload.
//!
//! A [`WorkloadClock`] tracks elapsed time against a target duration and
//! forwards progress updates to a sink no more often than a per-workload
//! minimum interval, so callbacks never dominate a tight measurement loop.
//! Each concurrent execution path owns its own clock instance.

use vstd::prelude::*;
use crate::progress::{extends_in_range, ProgressSink, PROGRESS_DONE};

verus! {

#[verifier::external_type_specification]
#[verifier::external_body]
pub struct ExInstant(std::time::Instant);

/// Relies on std::time::Instant::now: an opaque monotonic timestamp.
#[verifier::external_body]
pub(crate) fn instant_now() -> std::time::Instant {
    std::time::Instant::now()
}

/// Relies on std::time::Instant::elapsed (read out through
/// Duration::as_nanos): the nanoseconds since `start` was created, clamped
/// into `u64`. The value depends on the machine's clock, so nothing numeric
/// is promised about it.
#[verifier::external_body]
pub(crate) fn nanos_since(start: &std::time::Instant) -> u64 {
    u64::try_from(start.elapsed().as_nanos()).unwrap_or(u64::MAX)
}

/// The progress fraction, in hundredths of a percent, of `elapsed` towards
/// `target`, clamped to 100.00%.
pub open spec fn progress_fraction_spec(elapsed: int, target: int) -> int
    recommends
        target > 0,
{
    if elapsed * (PROGRESS_DONE as int) / target > PROGRESS_DONE as int {
        PROGRESS_DONE as int
    } else {
        elapsed * (PROGRESS_DONE as int) / target
    }
}

/// Computes the clamped progress fraction of `elapsed` towards `target`.
pub fn progress_fraction(elapsed: u64, target: u64) -> (r: u32)
    requires
        target > 0,
    ensures
        r == progress_fraction_spec(elapsed as int, target as int),
        r <= PROGRESS_DONE,
{
    let v: u128 = (elapsed as u128) * 10000u128 / (target as u128);
    if v > PROGRESS_DONE as u128 {
        PROGRESS_DONE
    } else {
        v as u32
    }
}

/// Shared timing/progress primitive: tracks elapsed time against a target
/// duration and throttles progress callbacks.
pub struct WorkloadClock {
    pub start: std::time::Instant,
    pub target_nanos: u64,
    pub report_interval_nanos: u64,
    pub last_report_elapsed: u64,
}

impl WorkloadClock {
    /// Starts a clock for a workload that should run for `target_nanos` and
    /// report at most once every `report_interval_nanos`.
    pub fn start(target_nanos: u64, report_interval_nanos: u64) -> (r: WorkloadClock)
        ensures
            r.target_nanos == target_nanos,
            r.report_interval_nanos == report_interval_nanos,
    {
        WorkloadClock {
            start: instant_now(),
            target_nanos,
            report_interval_nanos,
            last_report_elapsed: 0,
        }
    }

    /// Nanoseconds elapsed since the clock started. The value comes from the
    /// machine's clock; nothing numeric is known about it.
    pub fn elapsed_nanos(&self) -> u64 {
        nanos_since(&self.start)
    }

    /// Elapsed nanoseconds, raised to at least 1 so it can serve as a rate
    /// divisor.
    pub fn elapsed_nanos_at_least_one(&self) -> (r: u64)
        ensures
            r >= 1,
    {
        let e = self.elapsed_nanos();
        if e == 0 {
            1
        } else {
            e
        }
    }

    /// Whether the target duration has fully elapsed.
    pub fn is_expired(&self) -> bool {
        self.elapsed_nanos() >= self.target_nanos
    }

    /// Forwards a progress update to the sink, unless one was already
    /// forwarded less than the minimum report interval ago.
    pub fn maybe_report<S: ProgressSink>(&mut self, sink: &mut S, progress: u32, message: &str)
        requires
            progress <= PROGRESS_DONE,
        ensures
            final(self).target_nanos == old(self).target_nanos,
            final(self).report_interval_nanos == old(self).report_interval_nanos,
            final(sink).reports() == old(sink).reports() || final(sink).reports() == old(
                sink,
            ).reports().push(progress),
            extends_in_range(old(sink).reports(), final(sink).reports()),
    {
        let now = self.elapsed_nanos();
        if now.saturating_sub(self.last_report_elapsed) >= self.report_interval_nanos {
            sink.report(progress, message);
            self.last_report_elapsed = now;
        }
    }
}

} // verus!

//! Derivation of throughput, rate and mean statistics from raw counters.
//!
//! Every score the engine reports is an exact integer function of a counted
//! amount of work and a measured elapsed time in nanoseconds; rates saturate
//! at `u64::MAX` instead of overflowing.

use vstd::prelude::*;
use vstd::arithmetic::div_mod::{lemma_mod_multiples_vanish, lemma_small_mod};

verus! {

pub const NANOS_PER_SECOND: u64 = 1_000_000_000;

pub const BYTES_PER_MEGABYTE: u64 = 1_048_576;

/// Clamps an unbounded integer into the `u64` range.
pub open spec fn clamp_u64(v: int) -> int {
    if v > u64::MAX {
        u64::MAX as int
    } else {
        v
    }
}

/// Events per second, given a count of events and the elapsed nanoseconds.
pub open spec fn per_second_spec(count: int, elapsed_nanos: int) -> int
    recommends
        elapsed_nanos > 0,
{
    clamp_u64(count * (NANOS_PER_SECOND as int) / elapsed_nanos)
}

/// Megabytes per second, given a byte count and the elapsed nanoseconds.
pub open spec fn mb_per_second_spec(bytes: int, elapsed_nanos: int) -> int
    recommends
        elapsed_nanos > 0,
{
    clamp_u64(bytes * (NANOS_PER_SECOND as int) / (elapsed_nanos * (BYTES_PER_MEGABYTE as int)))
}

/// How many events completed per second of elapsed time.
pub fn per_second(count: u64, elapsed_nanos: u64) -> (r: u64)
    requires
        elapsed_nanos > 0,
    ensures
        r == per_second_spec(count as int, elapsed_nanos as int),
{
    let v: u128 = (count as u128) * 1_000_000_000u128 / (elapsed_nanos as u128);
    if v > u64::MAX as u128 {
        u64::MAX
    } else {
        v as u64
    }
}

/// How many whole megabytes moved per second of elapsed time.
pub fn mb_per_second(bytes: u64, elapsed_nanos: u64) -> (r: u64)
    requires
        elapsed_nanos > 0,
    ensures
        r == mb_per_second_spec(bytes as int, elapsed_nanos as int),
{
    let v: u128 = (bytes as u128) * 1_000_000_000u128 / ((elapsed_nanos as u128)
        * 1_048_576u128);
    if v > u64::MAX as u128 {
        u64::MAX
    } else {
        v as u64
    }
}

/// The mean of two values, rounded down.
pub fn mean2(a: u64, b: u64) -> (r: u64)
    ensures
        r == (a + b) / 2,
{
    let v: u128 = ((a as u128) + (b as u128)) / 2;
    v as u64
}

/// The mean of three values, rounded down.
pub fn mean3(a: u64, b: u64, c: u64) -> (r: u64)
    ensures
        r == (a + b + c) / 3,
{
    let v: u128 = ((a as u128) + (b as u128) + (c as u128)) / 3;
    v as u64
}

/// A measured rate is strictly positive whenever work was done and the
/// elapsed time did not exceed one second per counted event: every score
/// the engine derives from a positive amount of work is positive under
/// that bound.
pub proof fn lemma_per_second_positive(count: int, elapsed_nanos: int)
    requires
        count >= 1,
        1 <= elapsed_nanos <= count * (NANOS_PER_SECOND as int),
    ensures
        per_second_spec(count, elapsed_nanos) >= 1,
{
    let prod = count * (NANOS_PER_SECOND as int);
    lemma_div_by_self_positive(prod, elapsed_nanos);
}

/// Helper: a value divided by a smaller positive value is at least 1.
proof fn lemma_div_by_self_positive(x: int, d: int)
    requires
        1 <= d <= x,
    ensures
        x / d >= 1,
{
    vstd::arithmetic::div_mod::lemma_fundamental_div_mod(x, d);
    assert(x / d >= 1) by (nonlinear_arith)
        requires
            x == d * (x / d) + x % d,
            0 <= x % d < d,
            1 <= d <= x,
    ;
}

/// The product of two values, saturating at `u64::MAX`.
pub fn sat_mul(a: u64, b: u64) -> (r: u64)
    ensures
        r == clamp_u64((a as int) * (b as int)),
{
    match a.checked_mul(b) {
        Some(v) => v,
        None => u64::MAX,
    }
}

/// Addition modulo 2^64, the accumulation step of every checksum in the
/// engine.
pub fn wrap_add(a: u64, b: u64) -> (r: u64)
    ensures
        r == ((a as int) + (b as int)) % 0x1_0000_0000_0000_0000,
{
    proof {
        let m: int = 0x1_0000_0000_0000_0000;
        let x: int = (a as int) + (b as int);
        if x <= u64::MAX {
            lemma_small_mod(x as nat, m as nat);
        } else {
            lemma_mod_multiples_vanish(1, x - m, m);
            lemma_small_mod((x - m) as nat, m as nat);
        }
    }
    a.wrapping_add(b)
}

/// The mean of a sum of samples, or zero when there are no samples.
pub fn mean_or_zero(sum: u64, count: u64) -> (r: u64)
    ensures
        count > 0 ==> r == sum / count,
        count == 0 ==> r == 0,
{
    if count == 0 {
        0
    } else {
        sum / count
    }
}

} // verus!

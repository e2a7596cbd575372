//! Conversion of the operating systems' native CPU-time encodings to
//! nanoseconds.
//!
//! Every conversion is total: values that do not fit a `u64` of
//! nanoseconds saturate at `u64::MAX`, and negative fields that a format
//! permits are either rejected or clamped to zero, as each format states.
use vstd::prelude::*;

use crate::error::MonitorError;

verus! {

pub const NANOS_PER_SEC: u64 = 1_000_000_000;

pub const NANOS_PER_MICRO: u64 = 1_000;

/// Length of one FILETIME unit in nanoseconds.
pub const NANOS_PER_NS100: u64 = 100;

/// `x` as a `u64`, saturating at the largest value.
pub open spec fn clamp_u64(x: int) -> u64 {
    if x < 0 {
        0
    } else if x > u64::MAX {
        u64::MAX
    } else {
        x as u64
    }
}

/// `x`, or zero where `x` is negative.
pub open spec fn non_negative(x: int) -> int {
    if x < 0 {
        0
    } else {
        x
    }
}

/// The clock-tick counters of one Linux `stat` record: user and system time
/// of the target, and of its waited-for children.
#[derive(Debug, Clone, Copy, PartialEq, Eq, Structural)]
pub struct StatTicks {
    pub utime: u64,
    pub stime: u64,
    pub cutime: i64,
    pub cstime: i64,
}

/// CPU time of a tick record in nanoseconds at `tps` ticks per second, or
/// why there is none.
pub open spec fn stat_record_cputime(t: StatTicks, tps: u64) -> Result<u64, MonitorError> {
    stat_cputime(t.utime, t.stime, t.cutime, t.cstime, tps)
}

/// Sum of the four clock-tick counters of a Linux `stat` record: user and
/// system time of the target, and of its waited-for children.
pub open spec fn stat_ticks(utime: u64, stime: u64, cutime: i64, cstime: i64) -> int {
    utime + stime + cutime + cstime
}

/// `ticks` clock ticks in nanoseconds, at `tps` ticks per second, rounded down.
pub open spec fn ticks_nanos(ticks: int, tps: int) -> int {
    ticks * NANOS_PER_SEC / tps
}

/// CPU time of a Linux `stat` record in nanoseconds, or why there is none.
pub open spec fn stat_cputime(utime: u64, stime: u64, cutime: i64, cstime: i64, tps: u64) -> Result<
    u64,
    MonitorError,
> {
    if tps == 0 || stat_ticks(utime, stime, cutime, cstime) < 0 {
        Err(MonitorError::InvalidCounterState)
    } else {
        Ok(clamp_u64(ticks_nanos(stat_ticks(utime, stime, cutime, cstime), tps as int)))
    }
}

/// CPU time of a Linux `stat` record in nanoseconds.
///
/// Fails with `InvalidCounterState` when `tps` is zero or when the four
/// counters sum to a negative number of ticks.
pub fn stat_cputime_nanos(utime: u64, stime: u64, cutime: i64, cstime: i64, tps: u64) -> (r: Result<
    u64,
    MonitorError,
>)
    ensures
        r == stat_cputime(utime, stime, cutime, cstime, tps),
        tps == 0 ==> r == Err::<u64, MonitorError>(MonitorError::InvalidCounterState),
        tps != 0 && stat_ticks(utime, stime, cutime, cstime) < 0 ==> r == Err::<u64, MonitorError>(
            MonitorError::InvalidCounterState,
        ),
        tps != 0 && stat_ticks(utime, stime, cutime, cstime) >= 0 ==> r == Ok::<u64, MonitorError>(
            clamp_u64(ticks_nanos(stat_ticks(utime, stime, cutime, cstime), tps as int)),
        ),
{
    if tps == 0 {
        return Err(MonitorError::InvalidCounterState);
    }
    let total: i128 = utime as i128 + stime as i128 + cutime as i128 + cstime as i128;
    if total < 0 {
        return Err(MonitorError::InvalidCounterState);
    }
    let ticks: u128 = total as u128;
    assert(ticks * 1_000_000_000 <= 0x4_0000_0000_0000_0000 * 1_000_000_000) by (nonlinear_arith)
        requires
            ticks <= 0x4_0000_0000_0000_0000,
    ;
    let nanos: u128 = ticks * (NANOS_PER_SEC as u128) / (tps as u128);
    Ok(saturate_u128(nanos))
}

/// Normalizing a tick record is a function of the record and the tick rate
/// alone: two normalizations of the same values give the same result.
pub proof fn lemma_stat_normalization_repeatable(
    utime: u64,
    stime: u64,
    cutime: i64,
    cstime: i64,
    tps: u64,
    first: Result<u64, MonitorError>,
    second: Result<u64, MonitorError>,
)
    requires
        first == stat_cputime(utime, stime, cutime, cstime, tps),
        second == stat_cputime(utime, stime, cutime, cstime, tps),
    ensures
        first == second,
{
}

/// `x` as a `u64`, saturating at the largest value.
pub fn saturate_u128(x: u128) -> (r: u64)
    ensures
        r == clamp_u64(x as int),
{
    if x > u64::MAX as u128 {
        u64::MAX
    } else {
        x as u64
    }
}

/// Value of a FILETIME-style pair of 32-bit words, in 100-nanosecond units.
pub open spec fn filetime_value(high: u32, low: u32) -> int {
    high * 0x1_0000_0000 + low
}

/// Joins the high and low words of a FILETIME-style counter into one value
/// in 100-nanosecond units, the high word being the more significant.
pub fn filetime_to_ns100(high: u32, low: u32) -> (r: u64)
    ensures
        r == filetime_value(high, low),
{
    assert(high * 0x1_0000_0000 <= 0xffff_ffff * 0x1_0000_0000) by (nonlinear_arith)
        requires
            high <= 0xffff_ffff,
    ;
    (high as u64) * 0x1_0000_0000 + (low as u64)
}

/// Sum of two FILETIME-style counters (kernel and user time), each given as
/// its high and low words, in 100-nanosecond units, saturating.
pub fn filetime_sum(kernel_high: u32, kernel_low: u32, user_high: u32, user_low: u32) -> (r: u64)
    ensures
        r == clamp_u64(filetime_value(kernel_high, kernel_low) + filetime_value(user_high, user_low)),
{
    filetime_to_ns100(kernel_high, kernel_low).saturating_add(filetime_to_ns100(user_high, user_low))
}

/// A count of 100-nanosecond units in nanoseconds, saturating.
pub fn ns100_to_nanos(ns100: u64) -> (r: u64)
    ensures
        r == clamp_u64(ns100 * NANOS_PER_NS100),
{
    assert(ns100 * 100 <= 0x1_0000_0000_0000_0000 * 100) by (nonlinear_arith)
        requires
            ns100 <= 0x1_0000_0000_0000_0000,
    ;
    saturate_u128(ns100 as u128 * NANOS_PER_NS100 as u128)
}

/// CPU time of a process from its kernel and user FILETIME counters (in
/// 100-nanosecond units), expressed in units of `cpus` logical processors
/// running in parallel, in nanoseconds, saturating.
pub fn process_times_nanos(kernel: u64, user: u64, cpus: u64) -> (r: u64)
    ensures
        r == clamp_u64((kernel + user) * NANOS_PER_NS100 * cpus),
{
    let busy: u64 = ns100_to_nanos(kernel.saturating_add(user));
    match busy.checked_mul(cpus) {
        Some(v) => {
            proof {
                lemma_saturated_scale(kernel + user, cpus as int);
            }
            v
        },
        None => {
            proof {
                lemma_saturated_scale(kernel + user, cpus as int);
            }
            u64::MAX
        },
    }
}

/// Saturating after each factor gives the same result as saturating the
/// whole product, since all factors are non-negative.
proof fn lemma_saturated_scale(ticks: int, cpus: int)
    requires
        ticks >= 0,
        cpus >= 0,
    ensures
        clamp_u64(clamp_u64(clamp_u64(ticks) * NANOS_PER_NS100) * cpus) == clamp_u64(
            ticks * NANOS_PER_NS100 * cpus,
        ),
{
    let m = u64::MAX as int;
    let a = clamp_u64(ticks) as int;
    let b = clamp_u64(a * 100) as int;
    if cpus == 0 {
        assert(b * cpus == 0) by (nonlinear_arith)
            requires
                cpus == 0,
        ;
        assert(ticks * 100 * cpus == 0) by (nonlinear_arith)
            requires
                cpus == 0,
        ;
    } else if ticks * 100 * cpus <= m {
        assert(ticks <= m) by (nonlinear_arith)
            requires
                ticks * 100 * cpus <= m,
                cpus >= 1,
                ticks >= 0,
        ;
        assert(ticks * 100 <= m) by (nonlinear_arith)
            requires
                ticks * 100 * cpus <= m,
                cpus >= 1,
                ticks >= 0,
        ;
    } else {
        if ticks * 100 <= m {
            assert(b == ticks * 100);
        } else {
            assert(b == m);
            assert(m * cpus >= m) by (nonlinear_arith)
                requires
                    cpus >= 1,
                    m >= 0,
            ;
        }
    }
}

/// Nanoseconds of a seconds-and-microseconds pair whose fields are each
/// taken as zero where negative, saturating.
pub open spec fn secs_micros_nanos(secs: int, micros: int) -> u64 {
    clamp_u64(non_negative(secs) * NANOS_PER_SEC + non_negative(micros) * NANOS_PER_MICRO)
}

/// Converts a seconds-and-microseconds counter (a Mach `time_value_t` or a
/// `timeval`) to nanoseconds. Negative fields count as zero; the result
/// saturates.
pub fn secs_micros_to_nanos(secs: i64, micros: i64) -> (r: u64)
    ensures
        r == secs_micros_nanos(secs as int, micros as int),
{
    let s: u128 = if secs < 0 {
        0
    } else {
        secs as u128
    };
    let us: u128 = if micros < 0 {
        0
    } else {
        micros as u128
    };
    assert(s * 1_000_000_000 <= 0x8000_0000_0000_0000 * 1_000_000_000) by (nonlinear_arith)
        requires
            s <= 0x8000_0000_0000_0000,
    ;
    assert(us * 1_000 <= 0x8000_0000_0000_0000 * 1_000) by (nonlinear_arith)
        requires
            us <= 0x8000_0000_0000_0000,
    ;
    saturate_u128(s * (NANOS_PER_SEC as u128) + us * (NANOS_PER_MICRO as u128))
}

/// CPU time of a process from its user and system times (a `getrusage`
/// record), each as seconds and microseconds, in nanoseconds. Negative
/// fields count as zero; the sum saturates.
pub fn rusage_cputime_nanos(user_secs: i64, user_micros: i64, sys_secs: i64, sys_micros: i64) -> (r:
    u64)
    ensures
        r == clamp_u64(
            secs_micros_nanos(user_secs as int, user_micros as int) + secs_micros_nanos(
                sys_secs as int,
                sys_micros as int,
            ),
        ),
{
    secs_micros_to_nanos(user_secs, user_micros).saturating_add(
        secs_micros_to_nanos(sys_secs, sys_micros),
    )
}

} // verus!

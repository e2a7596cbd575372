//! Sample state and rate calculation.
//!
//! A `Sample` pairs a cumulative CPU-time reading with the monotonic
//! instant it was taken at, both in nanoseconds. Two samples of one target
//! give a CPU-time delta and a wall-time delta; their quotient is the
//! usage ratio, CPU seconds per wall second, not divided by the number of
//! processors.
use vstd::prelude::*;

use crate::error::MonitorError;
use crate::normalize::{
    clamp_u64, ns100_to_nanos, process_times_nanos, secs_micros_nanos, secs_micros_to_nanos,
    stat_cputime_nanos, stat_record_cputime, StatTicks, NANOS_PER_NS100,
};

verus! {

/// Smallest wall-time denominator of a usage ratio, in nanoseconds: an
/// interval shorter than one microsecond counts as one microsecond, so that
/// a ratio is always a finite number.
pub const MIN_WALL_NANOS: u64 = 1_000;

/// One reading of a target: cumulative CPU time and the monotonic instant of
/// the reading, both in nanoseconds.
#[derive(Debug, Clone, Copy, PartialEq, Eq, Structural)]
pub struct Sample {
    pub cpu_nanos: u64,
    pub at_nanos: u64,
}

/// CPU time consumed over a wall-time interval, as a fraction
/// `cpu_nanos / wall_nanos`. `wall_nanos` is at least `MIN_WALL_NANOS`;
/// `cpu_nanos` is negative only where the counter went backwards and the
/// delta is signed.
#[derive(Debug, Clone, Copy, PartialEq, Eq, Structural)]
pub struct UsageRatio {
    pub cpu_nanos: i128,
    pub wall_nanos: u64,
}

/// `new - old`, or zero where `new` is smaller.
pub open spec fn saturating_diff(new: int, old: int) -> int {
    if new >= old {
        new - old
    } else {
        0
    }
}

/// Wall time between two samples; zero where the later one appears earlier.
pub open spec fn wall_between(old: Sample, new: Sample) -> int {
    saturating_diff(new.at_nanos as int, old.at_nanos as int)
}

/// The denominator of a usage ratio: the wall time, at least
/// `MIN_WALL_NANOS`.
pub open spec fn ratio_denominator(wall: int) -> int {
    if wall < MIN_WALL_NANOS {
        MIN_WALL_NANOS as int
    } else {
        wall
    }
}

/// Usage between two samples where a regressing CPU counter gives a
/// negative ratio.
pub open spec fn signed_usage(old: Sample, new: Sample) -> UsageRatio {
    UsageRatio {
        cpu_nanos: (new.cpu_nanos - old.cpu_nanos) as i128,
        wall_nanos: ratio_denominator(wall_between(old, new)) as u64,
    }
}

/// Usage between two samples where a regressing CPU counter gives zero.
pub open spec fn saturating_usage(old: Sample, new: Sample) -> UsageRatio {
    UsageRatio {
        cpu_nanos: saturating_diff(new.cpu_nanos as int, old.cpu_nanos as int) as i128,
        wall_nanos: ratio_denominator(wall_between(old, new)) as u64,
    }
}

/// The sample made of a tick record read at `at_nanos`, at `tps` ticks per
/// second, or why the record cannot be normalized.
pub open spec fn stat_sample(t: StatTicks, tps: u64, at_nanos: u64) -> Result<Sample, MonitorError> {
    match stat_record_cputime(t, tps) {
        Ok(cpu) => Ok(Sample { cpu_nanos: cpu, at_nanos }),
        Err(e) => Err(e),
    }
}

/// Builds the sample of a tick record read at `at_nanos`.
pub fn sample_from_stat(t: &StatTicks, tps: u64, at_nanos: u64) -> (r: Result<Sample, MonitorError>)
    ensures
        r == stat_sample(*t, tps, at_nanos),
{
    let cpu = stat_cputime_nanos(t.utime, t.stime, t.cutime, t.cstime, tps)?;
    Ok(Sample { cpu_nanos: cpu, at_nanos })
}

impl Sample {
    /// Stores `next` and hands back the sample it replaces, in one step.
    pub fn exchange(&mut self, next: Sample) -> (prev: Sample)
        ensures
            prev == *old(self),
            *final(self) == next,
    {
        let prev = *self;
        *self = next;
        prev
    }
}

/// Wall time from `old` to `new` in nanoseconds. Where `new` was taken at or
/// before `old`, the result is zero.
pub fn wall_delta(old: &Sample, new: &Sample) -> (r: u64)
    ensures
        r == wall_between(*old, *new),
        new.at_nanos <= old.at_nanos ==> r == 0,
{
    new.at_nanos.saturating_sub(old.at_nanos)
}

/// CPU time from `old` to `new` in nanoseconds; zero where the counter went
/// backwards.
pub fn cpu_delta(old: &Sample, new: &Sample) -> (r: u64)
    ensures
        r == saturating_diff(new.cpu_nanos as int, old.cpu_nanos as int),
        new.cpu_nanos <= old.cpu_nanos ==> r == 0,
{
    new.cpu_nanos.saturating_sub(old.cpu_nanos)
}

/// The denominator of a usage ratio over `wall` nanoseconds.
fn denominator(wall: u64) -> (r: u64)
    ensures
        r == ratio_denominator(wall as int),
        r >= MIN_WALL_NANOS,
{
    if wall < MIN_WALL_NANOS {
        MIN_WALL_NANOS
    } else {
        wall
    }
}

/// Usage ratio from `old` to `new` with a signed CPU delta: a counter that
/// went backwards gives a negative ratio.
pub fn usage_signed(old: &Sample, new: &Sample) -> (r: UsageRatio)
    ensures
        r == signed_usage(*old, *new),
        r.wall_nanos >= MIN_WALL_NANOS,
        new.at_nanos <= old.at_nanos ==> r.wall_nanos == MIN_WALL_NANOS,
{
    let cpu: i128 = new.cpu_nanos as i128 - old.cpu_nanos as i128;
    UsageRatio { cpu_nanos: cpu, wall_nanos: denominator(wall_delta(old, new)) }
}

/// Usage ratio from `old` to `new` with a saturating CPU delta: a counter
/// that went backwards gives a ratio of zero.
pub fn usage_saturating(old: &Sample, new: &Sample) -> (r: UsageRatio)
    ensures
        r == saturating_usage(*old, *new),
        r.cpu_nanos >= 0,
        r.wall_nanos >= MIN_WALL_NANOS,
        new.at_nanos <= old.at_nanos ==> r.wall_nanos == MIN_WALL_NANOS,
{
    UsageRatio { cpu_nanos: cpu_delta(old, new) as i128, wall_nanos: denominator(wall_delta(old, new)) }
}

/// The CPU counters of a Mach thread record: user and system time, each as
/// seconds and microseconds.
#[derive(Debug, Clone, Copy, PartialEq, Eq, Structural)]
pub struct MachThreadTimes {
    pub user_secs: i32,
    pub user_micros: i32,
    pub system_secs: i32,
    pub system_micros: i32,
}

/// User time of a Mach thread record in nanoseconds.
pub open spec fn mach_user_nanos(t: MachThreadTimes) -> int {
    secs_micros_nanos(t.user_secs as int, t.user_micros as int) as int
}

/// System time of a Mach thread record in nanoseconds.
pub open spec fn mach_system_nanos(t: MachThreadTimes) -> int {
    secs_micros_nanos(t.system_secs as int, t.system_micros as int) as int
}

/// CPU time between two Mach thread records: the user and the system part
/// each floored at zero on its own, then added, saturating.
pub open spec fn mach_split_delta(old: MachThreadTimes, new: MachThreadTimes) -> u64 {
    clamp_u64(
        saturating_diff(mach_user_nanos(new), mach_user_nanos(old)) + saturating_diff(
            mach_system_nanos(new),
            mach_system_nanos(old),
        ),
    )
}

/// CPU time in nanoseconds between two Mach thread records, each of user
/// and system time floored at zero on its own.
pub fn mach_thread_cpu_delta(old: &MachThreadTimes, new: &MachThreadTimes) -> (r: u64)
    ensures
        r == mach_split_delta(*old, *new),
{
    let old_user = secs_micros_to_nanos(old.user_secs as i64, old.user_micros as i64);
    let old_system = secs_micros_to_nanos(old.system_secs as i64, old.system_micros as i64);
    let new_user = secs_micros_to_nanos(new.user_secs as i64, new.user_micros as i64);
    let new_system = secs_micros_to_nanos(new.system_secs as i64, new.system_micros as i64);
    new_user.saturating_sub(old_user).saturating_add(new_system.saturating_sub(old_system))
}

/// Usage of a Mach thread between two records taken at `old_at` and
/// `new_at` nanoseconds.
pub fn mach_thread_usage(old: &MachThreadTimes, new: &MachThreadTimes, old_at: u64, new_at: u64) -> (r:
    UsageRatio)
    ensures
        r == (UsageRatio {
            cpu_nanos: mach_split_delta(*old, *new) as i128,
            wall_nanos: ratio_denominator(saturating_diff(new_at as int, old_at as int)) as u64,
        }),
{
    UsageRatio {
        cpu_nanos: mach_thread_cpu_delta(old, new) as i128,
        wall_nanos: denominator(new_at.saturating_sub(old_at)),
    }
}

/// Usage of a thread measured against the time of all processors (Windows):
/// the thread's work delta over the system's total delta, both in
/// 100-nanosecond units, times the processor count. Where the system's
/// counter did not advance, the usage is zero.
pub open spec fn processor_share(
    old_work: u64,
    old_total: u64,
    new_work: u64,
    new_total: u64,
    cpus: u64,
) -> UsageRatio {
    let total = saturating_diff(new_total as int, old_total as int);
    if total == 0 {
        UsageRatio { cpu_nanos: 0, wall_nanos: MIN_WALL_NANOS }
    } else {
        UsageRatio {
            cpu_nanos: clamp_u64(
                saturating_diff(new_work as int, old_work as int) * NANOS_PER_NS100 * cpus,
            ) as i128,
            wall_nanos: ratio_denominator(clamp_u64(total * NANOS_PER_NS100) as int) as u64,
        }
    }
}

/// Usage of a thread against the time of all processors, from the thread's
/// work time and the system's total time (kernel plus user, in 100-nanosecond
/// units) at two readings, on `cpus` processors.
pub fn processor_share_usage(
    old_work: u64,
    old_total: u64,
    new_work: u64,
    new_total: u64,
    cpus: u64,
) -> (r: UsageRatio)
    ensures
        r == processor_share(old_work, old_total, new_work, new_total, cpus),
        r.wall_nanos >= MIN_WALL_NANOS,
{
    let total = new_total.saturating_sub(old_total);
    if total == 0 {
        return UsageRatio { cpu_nanos: 0, wall_nanos: MIN_WALL_NANOS };
    }
    let work = new_work.saturating_sub(old_work);
    let cpu = process_times_nanos(work, 0, cpus);
    UsageRatio { cpu_nanos: cpu as i128, wall_nanos: denominator(ns100_to_nanos(total)) }
}

/// A clock that appears to stand still or run backwards between two
/// samples gives a wall delta of zero, never a wrapped-around value, and the
/// usage ratio then has the smallest denominator.
pub proof fn lemma_backward_clock_gives_zero_wall(old: Sample, new: Sample)
    requires
        new.at_nanos <= old.at_nanos,
    ensures
        wall_between(old, new) == 0,
        signed_usage(old, new).wall_nanos == MIN_WALL_NANOS,
        saturating_usage(old, new).wall_nanos == MIN_WALL_NANOS,
{
}

/// Every usage ratio has a positive denominator, so it is a finite number
/// even over an interval of no measurable length; over such an interval the
/// denominator is `MIN_WALL_NANOS` and the numerator the exact CPU delta.
pub proof fn lemma_usage_denominator_positive(old: Sample, new: Sample)
    ensures
        signed_usage(old, new).wall_nanos >= MIN_WALL_NANOS > 0,
        saturating_usage(old, new).wall_nanos >= MIN_WALL_NANOS,
        new.at_nanos == old.at_nanos ==> signed_usage(old, new) == (UsageRatio {
            cpu_nanos: (new.cpu_nanos - old.cpu_nanos) as i128,
            wall_nanos: MIN_WALL_NANOS,
        }),
{
}

} // verus!

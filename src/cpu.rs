//! CPU usage of the current process and of single threads.
//!
//! A handle keeps the sample of its previous query; each query takes a new
//! sample, stores it in place of the old one and reports the difference.
//! Ratios are not divided by the number of processors: a process that keeps
//! three processors busy has a ratio near three.
use vstd::prelude::*;

use crate::error::MonitorError;
use crate::normalize::{saturate_u128, stat_cputime_nanos, stat_record_cputime, StatTicks};
use crate::sample::{
    cpu_delta, sample_from_stat, saturating_diff, saturating_usage, signed_usage, stat_sample,
    usage_saturating, usage_signed, Sample, UsageRatio,
};
use crate::sys::{
    classify_proc_error, clock_ticks_per_second, current_tid, duration_nanos, elapsed_since,
    instant_now, logical_cpus, process_myself, process_new, process_stat_ticks, task_from_tid,
    task_stat_ticks,
};
use procfs::process::{Process, Task};
use procfs::ProcError;
use std::time::Instant;

verus! {

/// `r` with its error turned into the library's own: a failed operating
/// system read, never a bad counter or a missing platform.
pub(crate) fn lift<T>(r: Result<T, ProcError>) -> (out: Result<T, MonitorError>)
    ensures
        r is Ok <==> out is Ok,
        r is Ok ==> out->Ok_0 == r->Ok_0,
        out is Err ==> out->Err_0 != MonitorError::InvalidCounterState && out->Err_0
            != MonitorError::UnsupportedPlatform,
{
    match r {
        Ok(v) => Ok(v),
        Err(e) => Err(classify_proc_error(e)),
    }
}

/// `s` is the sample of some tick record at `tps` ticks per second.
pub open spec fn is_stat_sample(s: Sample, tps: u64) -> bool {
    exists|t: StatTicks| #[trigger] stat_sample(t, tps, s.at_nanos) == Ok::<Sample, MonitorError>(s)
}

/// Number of logical processors available to this process; at least one.
pub fn processor_numbers() -> (r: Result<usize, MonitorError>)
    ensures
        r is Ok,
        r->Ok_0 >= 1,
{
    Ok(logical_cpus())
}

/// The current process, as procfs sees it.
pub fn current_process() -> (r: Result<Process, MonitorError>)
    ensures
        r is Err ==> r->Err_0 != MonitorError::InvalidCounterState && r->Err_0
            != MonitorError::UnsupportedPlatform,
{
    lift(process_myself())
}

/// The calling thread, as procfs sees it.
pub fn current_task() -> (r: Result<Task, MonitorError>)
    ensures
        r is Err ==> r->Err_0 != MonitorError::InvalidCounterState && r->Err_0
            != MonitorError::UnsupportedPlatform,
{
    let tid = ThreadId::current();
    let process = current_process()?;
    lift(task_from_tid(&process, tid.as_raw()))
}

/// Nanoseconds on the monotonic clock since `anchor`, saturating.
fn nanos_since(anchor: &Instant) -> u64 {
    let d = elapsed_since(anchor);
    saturate_u128(duration_nanos(&d))
}

/// The tick record of the process `process`.
fn process_ticks(process: &Process) -> (r: Result<StatTicks, MonitorError>)
    ensures
        r is Err ==> r->Err_0 != MonitorError::InvalidCounterState && r->Err_0
            != MonitorError::UnsupportedPlatform,
{
    lift(process_stat_ticks(process))
}

/// CPU time of the process `process` and of its waited-for children, in
/// nanoseconds: its tick record as procfs reads it, normalized at `tps`
/// clock ticks per second. A rate of zero is rejected.
pub fn process_cputime_at(process: &Process, tps: u64) -> (r: Result<u64, MonitorError>)
    ensures
        tps == 0 ==> r == Err::<u64, MonitorError>(MonitorError::InvalidCounterState),
        r is Ok ==> exists|t: StatTicks| #[trigger] stat_record_cputime(t, tps) == r,
        r is Err ==> r->Err_0 != MonitorError::UnsupportedPlatform,
{
    if tps == 0 {
        return Err(MonitorError::InvalidCounterState);
    }
    let t = process_ticks(process)?;
    let r = stat_cputime_nanos(t.utime, t.stime, t.cutime, t.cstime, tps);
    assert(stat_record_cputime(t, tps) == r);
    r
}

/// CPU time of the process with identifier `pid` and of its waited-for
/// children, in nanoseconds, normalized at the kernel's clock tick rate.
pub fn process_cputime(pid: i32) -> (r: Result<u64, MonitorError>)
    ensures
        r is Err ==> r->Err_0 != MonitorError::UnsupportedPlatform,
{
    let process = lift(process_new(pid))?;
    process_cputime_at(&process, clock_ticks_per_second())
}

/// CPU time of the current process and of its waited-for children, in
/// nanoseconds, normalized at the kernel's clock tick rate.
pub fn cpu_time() -> (r: Result<u64, MonitorError>)
    ensures
        r is Err ==> r->Err_0 != MonitorError::UnsupportedPlatform,
{
    let process = current_process()?;
    process_cputime_at(&process, clock_ticks_per_second())
}

/// The kernel's identifier of a thread.
#[derive(Debug, Clone, Copy)]
pub struct ThreadId {
    tid: i32,
}

impl ThreadId {
    /// The raw identifier.
    pub closed spec fn raw(&self) -> i32 {
        self.tid
    }

    /// The identifier of the calling thread.
    pub fn current() -> (r: ThreadId)
        ensures
            r.raw() != 0,
    {
        ThreadId { tid: current_tid() }
    }

    /// The raw identifier, as the kernel gives it.
    pub fn as_raw(&self) -> (r: i32)
        ensures
            r == self.raw(),
    {
        self.tid
    }
}

/// The tick record of thread `tid` of the current process.
fn thread_ticks(tid: ThreadId) -> (r: Result<StatTicks, MonitorError>)
    ensures
        r is Err ==> r->Err_0 != MonitorError::InvalidCounterState && r->Err_0
            != MonitorError::UnsupportedPlatform,
{
    let process = current_process()?;
    let task = lift(task_from_tid(&process, tid.as_raw()))?;
    lift(task_stat_ticks(&task))
}

/// Monitor of one thread's CPU usage.
pub struct ThreadStat {
    tid: ThreadId,
    tps: u64,
    anchor: Instant,
    last: Sample,
}

impl ThreadStat {
    /// The sample of the latest successful query, or of construction.
    pub closed spec fn last(&self) -> Sample {
        self.last
    }

    /// The monitored thread.
    pub closed spec fn tid(&self) -> ThreadId {
        self.tid
    }

    /// The clock ticks per second that the monitor normalizes with.
    pub closed spec fn tps(&self) -> u64 {
        self.tps
    }

    /// This monitor with `s` as its stored sample and nothing else changed.
    pub closed spec fn with_last(self, s: Sample) -> ThreadStat {
        ThreadStat { last: s, ..self }
    }

    /// A monitor of thread `tid` of the current process, holding a first
    /// sample of it.
    pub fn build(tid: ThreadId) -> (r: Result<ThreadStat, MonitorError>)
        ensures
            r is Ok ==> r->Ok_0.tid() == tid && r->Ok_0.tps() > 0 && is_stat_sample(
                r->Ok_0.last(),
                r->Ok_0.tps(),
            ),
            r is Err ==> r->Err_0 != MonitorError::UnsupportedPlatform,
    {
        let tps = clock_ticks_per_second();
        let anchor = instant_now();
        let t = thread_ticks(tid)?;
        let at = nanos_since(&anchor);
        let last = sample_from_stat(&t, tps, at)?;
        assert(stat_sample(t, tps, last.at_nanos) == Ok::<Sample, MonitorError>(last));
        Ok(ThreadStat { tid, tps, anchor, last })
    }

    /// A monitor of the calling thread.
    pub fn current() -> (r: Result<ThreadStat, MonitorError>)
        ensures
            r is Ok ==> r->Ok_0.tid().raw() != 0 && r->Ok_0.tps() > 0 && is_stat_sample(
                r->Ok_0.last(),
                r->Ok_0.tps(),
            ),
            r is Err ==> r->Err_0 != MonitorError::UnsupportedPlatform,
    {
        ThreadStat::build(ThreadId::current())
    }

    /// Same as `current`.
    pub fn cur() -> (r: Result<ThreadStat, MonitorError>)
        ensures
            r is Ok ==> r->Ok_0.tid().raw() != 0 && r->Ok_0.tps() > 0 && is_stat_sample(
                r->Ok_0.last(),
                r->Ok_0.tps(),
            ),
            r is Err ==> r->Err_0 != MonitorError::UnsupportedPlatform,
    {
        ThreadStat::current()
    }

    /// A fresh sample of the monitored thread: its tick record, then the
    /// monotonic clock.
    fn take_sample(&self) -> (r: Result<Sample, MonitorError>)
        ensures
            r is Ok ==> is_stat_sample(r->Ok_0, self.tps),
            self.tps == 0 ==> r is Err,
            r is Err ==> r->Err_0 != MonitorError::UnsupportedPlatform,
    {
        let t = thread_ticks(self.tid)?;
        let at = nanos_since(&self.anchor);
        let r = sample_from_stat(&t, self.tps, at);
        proof {
            if r is Ok {
                assert(stat_sample(t, self.tps, r->Ok_0.at_nanos) == r);
            }
        }
        r
    }

    /// CPU usage of the thread since the previous query, or since
    /// construction. The CPU delta is signed: a thread counter that went
    /// backwards (a reused identifier) gives a negative ratio. On failure
    /// the stored sample is kept; a tick rate of zero always fails.
    pub fn cpu_usage(&mut self) -> (r: Result<UsageRatio, MonitorError>)
        ensures
            r is Ok ==> *final(self) == old(self).with_last(final(self).last()) && is_stat_sample(
                final(self).last(),
                old(self).tps(),
            ) && r->Ok_0 == signed_usage(old(self).last(), final(self).last()),
            r is Err ==> *final(self) == *old(self),
            old(self).tps() == 0 ==> r is Err,
            r is Err ==> r->Err_0 != MonitorError::UnsupportedPlatform,
    {
        let next = self.take_sample()?;
        let prev = self.last.exchange(next);
        Ok(usage_signed(&prev, &next))
    }

    /// Same as `cpu_usage`.
    pub fn cpu(&mut self) -> (r: Result<UsageRatio, MonitorError>)
        ensures
            r is Ok ==> *final(self) == old(self).with_last(final(self).last()) && is_stat_sample(
                final(self).last(),
                old(self).tps(),
            ) && r->Ok_0 == signed_usage(old(self).last(), final(self).last()),
            r is Err ==> *final(self) == *old(self),
            old(self).tps() == 0 ==> r is Err,
            r is Err ==> r->Err_0 != MonitorError::UnsupportedPlatform,
    {
        self.cpu_usage()
    }

    /// CPU time of the thread since the previous query, or since
    /// construction, in nanoseconds; zero where the counter went backwards.
    /// On failure the stored sample is kept.
    pub fn cpu_time(&mut self) -> (r: Result<u64, MonitorError>)
        ensures
            r is Ok ==> *final(self) == old(self).with_last(final(self).last()) && is_stat_sample(
                final(self).last(),
                old(self).tps(),
            ) && r->Ok_0 == saturating_diff(
                final(self).last().cpu_nanos as int,
                old(self).last().cpu_nanos as int,
            ),
            r is Err ==> *final(self) == *old(self),
            old(self).tps() == 0 ==> r is Err,
            r is Err ==> r->Err_0 != MonitorError::UnsupportedPlatform,
    {
        let next = self.take_sample()?;
        let prev = self.last.exchange(next);
        Ok(cpu_delta(&prev, &next))
    }
}

/// Monitor of the current process's CPU usage, its waited-for children
/// included.
pub struct ProcessStat {
    tps: u64,
    anchor: Instant,
    last: Sample,
}

impl ProcessStat {
    /// The sample of the latest successful query, or of construction.
    pub closed spec fn last(&self) -> Sample {
        self.last
    }

    /// The clock ticks per second that the monitor normalizes with.
    pub closed spec fn tps(&self) -> u64 {
        self.tps
    }

    /// This monitor with `s` as its stored sample and nothing else changed.
    pub closed spec fn with_last(self, s: Sample) -> ProcessStat {
        ProcessStat { last: s, ..self }
    }

    /// A fresh sample of the current process: its tick record, then the
    /// monotonic clock.
    fn read_sample(tps: u64, anchor: &Instant) -> (r: Result<Sample, MonitorError>)
        ensures
            r is Ok ==> is_stat_sample(r->Ok_0, tps),
            tps == 0 ==> r is Err,
            r is Err ==> r->Err_0 != MonitorError::UnsupportedPlatform,
    {
        let process = current_process()?;
        let t = process_ticks(&process)?;
        let at = nanos_since(anchor);
        let r = sample_from_stat(&t, tps, at);
        proof {
            if r is Ok {
                assert(stat_sample(t, tps, r->Ok_0.at_nanos) == r);
            }
        }
        r
    }

    /// A monitor of the current process, holding a first sample of it.
    pub fn current() -> (r: Result<ProcessStat, MonitorError>)
        ensures
            r is Ok ==> r->Ok_0.tps() > 0 && is_stat_sample(r->Ok_0.last(), r->Ok_0.tps()),
            r is Err ==> r->Err_0 != MonitorError::UnsupportedPlatform,
    {
        let tps = clock_ticks_per_second();
        let anchor = instant_now();
        let last = ProcessStat::read_sample(tps, &anchor)?;
        Ok(ProcessStat { tps, anchor, last })
    }

    /// Same as `current`.
    pub fn cur() -> (r: Result<ProcessStat, MonitorError>)
        ensures
            r is Ok ==> r->Ok_0.tps() > 0 && is_stat_sample(r->Ok_0.last(), r->Ok_0.tps()),
            r is Err ==> r->Err_0 != MonitorError::UnsupportedPlatform,
    {
        ProcessStat::current()
    }

    /// CPU usage of the process since the previous query, or since
    /// construction; a counter that went backwards gives zero. On failure
    /// the stored sample is kept; a tick rate of zero always fails.
    pub fn cpu(&mut self) -> (r: Result<UsageRatio, MonitorError>)
        ensures
            r is Ok ==> *final(self) == old(self).with_last(final(self).last()) && is_stat_sample(
                final(self).last(),
                old(self).tps(),
            ) && r->Ok_0 == saturating_usage(old(self).last(), final(self).last()),
            r is Err ==> *final(self) == *old(self),
            old(self).tps() == 0 ==> r is Err,
            r is Err ==> r->Err_0 != MonitorError::UnsupportedPlatform,
    {
        let next = ProcessStat::read_sample(self.tps, &self.anchor)?;
        let prev = self.last.exchange(next);
        Ok(usage_saturating(&prev, &next))
    }
}

} // verus!

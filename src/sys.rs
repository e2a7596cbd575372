//! The operating-system reads this library relies on, each behind a small
//! trusted item. What they return depends on the machine, so their
//! contracts promise only what holds of every outcome.
use vstd::prelude::*;

use crate::error::MonitorError;
use crate::normalize::StatTicks;
use core::time::Duration;
use procfs::process::{Io, Process, StatM, Task};
use procfs::ProcError;
use std::time::Instant;

verus! {

#[verifier::external_type_specification]
#[verifier::external_body]
pub struct ExProcess(procfs::process::Process);

#[verifier::external_type_specification]
#[verifier::external_body]
pub struct ExTask(procfs::process::Task);

#[verifier::external_type_specification]
#[verifier::external_body]
pub struct ExProcError(procfs::ProcError);

#[verifier::external_type_specification]
#[verifier::external_body]
pub struct ExInstant(std::time::Instant);

#[verifier::external_type_specification]
pub struct ExIo(procfs::process::Io);

#[verifier::external_type_specification]
pub struct ExStatM(procfs::process::StatM);

/// Relies on procfs's `Process::myself`: opens `/proc/self`.
#[verifier::external_body]
pub(crate) fn process_myself() -> (r: Result<Process, ProcError>) {
    Process::myself()
}

/// Relies on procfs's `Process::new`: opens `/proc/<pid>`.
#[verifier::external_body]
pub(crate) fn process_new(pid: i32) -> (r: Result<Process, ProcError>) {
    Process::new(pid)
}

/// Relies on procfs's `Process::task_from_tid`: opens
/// `/proc/<pid>/task/<tid>`.
#[verifier::external_body]
pub(crate) fn task_from_tid(process: &Process, tid: i32) -> (r: Result<Task, ProcError>) {
    process.task_from_tid(tid)
}

/// Relies on procfs's `Process::stat`: parses `/proc/<pid>/stat`; only the
/// four CPU-time fields are kept.
#[verifier::external_body]
pub(crate) fn process_stat_ticks(process: &Process) -> (r: Result<StatTicks, ProcError>) {
    let s = process.stat()?;
    Ok(StatTicks { utime: s.utime, stime: s.stime, cutime: s.cutime, cstime: s.cstime })
}

/// Relies on procfs's `Task::stat`: parses `/proc/<pid>/task/<tid>/stat`;
/// only the four CPU-time fields are kept.
#[verifier::external_body]
pub(crate) fn task_stat_ticks(task: &Task) -> (r: Result<StatTicks, ProcError>) {
    let s = task.stat()?;
    Ok(StatTicks { utime: s.utime, stime: s.stime, cutime: s.cutime, cstime: s.cstime })
}

/// Relies on procfs's `Process::fd_count`: counts the entries of
/// `/proc/<pid>/fd`.
#[verifier::external_body]
pub(crate) fn process_fd_count(process: &Process) -> (r: Result<usize, ProcError>) {
    process.fd_count()
}

/// Relies on procfs's `Process::io`: parses `/proc/<pid>/io`.
#[verifier::external_body]
pub(crate) fn process_io(process: &Process) -> (r: Result<Io, ProcError>) {
    process.io()
}

/// Relies on procfs's `Process::statm`: parses `/proc/<pid>/statm`.
#[verifier::external_body]
pub(crate) fn process_statm(process: &Process) -> (r: Result<StatM, ProcError>) {
    process.statm()
}

/// Relies on procfs's `ticks_per_second`: the kernel's clock ticks per
/// second (`sysconf(_SC_CLK_TCK)`).
#[verifier::external_body]
pub(crate) fn clock_ticks_per_second() -> (r: u64) {
    procfs::ticks_per_second()
}

/// Relies on num_cpus's `get`: the number of logical processors available
/// to this process, documented to be at least one.
#[verifier::external_body]
pub(crate) fn logical_cpus() -> (r: usize)
    ensures
        r >= 1,
{
    num_cpus::get()
}

/// Relies on rustix's `thread::gettid`: the kernel's identifier of the
/// calling thread, which its `Pid` type keeps non-zero.
#[verifier::external_body]
pub(crate) fn current_tid() -> (r: i32)
    ensures
        r != 0,
{
    rustix::thread::gettid().as_raw_nonzero().get()
}

/// Relies on the variants of procfs's `ProcError`: a missing file is a
/// missing target, a refused one a denied permission, anything else a failed
/// query (with the OS error code where there is one).
#[verifier::external_body]
pub(crate) fn classify_proc_error(e: ProcError) -> (r: MonitorError)
    ensures
        r != MonitorError::InvalidCounterState,
        r != MonitorError::UnsupportedPlatform,
{
    match e {
        ProcError::PermissionDenied(_) => MonitorError::PermissionDenied,
        ProcError::NotFound(_) => MonitorError::TargetNotFound,
        ProcError::Incomplete(_) => MonitorError::OsQueryFailure(None),
        ProcError::Io(io, _) => MonitorError::OsQueryFailure(io.raw_os_error()),
        ProcError::Other(_) => MonitorError::OsQueryFailure(None),
        ProcError::InternalError(_) => MonitorError::OsQueryFailure(None),
    }
}

/// Relies on `std::time::Instant::now`: a reading of the monotonic clock.
#[verifier::external_body]
pub(crate) fn instant_now() -> (r: Instant) {
    Instant::now()
}

/// Relies on `std::time::Instant::elapsed`: the time since `anchor` on the
/// monotonic clock.
#[verifier::external_body]
pub(crate) fn elapsed_since(anchor: &Instant) -> (r: Duration) {
    anchor.elapsed()
}

/// Relies on `core::time::Duration::as_nanos`: the whole duration in
/// nanoseconds.
#[verifier::external_body]
pub(crate) fn duration_nanos(d: &Duration) -> (r: u128) {
    d.as_nanos()
}

} // verus!

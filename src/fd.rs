//! Number of open file descriptors of a process.
use vstd::prelude::*;

use crate::cpu::{current_process, lift};
use crate::error::MonitorError;
use crate::sys::{process_fd_count, process_new};

verus! {

/// Number of open file descriptors of the process with identifier `pid`.
/// An identifier beyond the kernel's range (`i32::MAX`) names no process.
pub fn fd_count_pid(pid: u32) -> (r: Result<usize, MonitorError>)
    ensures
        pid > i32::MAX ==> r == Err::<usize, MonitorError>(MonitorError::TargetNotFound),
        r is Err ==> r->Err_0 != MonitorError::InvalidCounterState && r->Err_0
            != MonitorError::UnsupportedPlatform,
{
    if pid > i32::MAX as u32 {
        return Err(MonitorError::TargetNotFound);
    }
    let process = lift(process_new(pid as i32))?;
    lift(process_fd_count(&process))
}

/// Number of open file descriptors of the current process.
pub fn fd_count_current() -> (r: Result<usize, MonitorError>)
    ensures
        r is Err ==> r->Err_0 != MonitorError::InvalidCounterState && r->Err_0
            != MonitorError::UnsupportedPlatform,
{
    let process = current_process()?;
    lift(process_fd_count(&process))
}

/// Same as `fd_count_current`.
pub fn fd_count_cur() -> (r: Result<usize, MonitorError>)
    ensures
        r is Err ==> r->Err_0 != MonitorError::InvalidCounterState && r->Err_0
            != MonitorError::UnsupportedPlatform,
{
    fd_count_current()
}

} // verus!

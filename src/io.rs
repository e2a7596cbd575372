//! Disk I/O counters of the current process.
use vstd::prelude::*;

use crate::cpu::{current_process, lift};
use crate::error::MonitorError;
use crate::sys::process_io;
use procfs::process::Io;

verus! {

/// Cumulative I/O of a process. The byte counts are those of actual device
/// I/O, not of reads and writes served from caches.
#[derive(Debug, Clone, Copy, Default, PartialEq, Eq, Structural)]
pub struct IOStats {
    /// Read operations performed, where the platform counts them.
    pub read_count: Option<u64>,
    /// Write operations performed, where the platform counts them.
    pub write_count: Option<u64>,
    /// Bytes read from storage.
    pub read_bytes: u64,
    /// Bytes written to storage.
    pub write_bytes: u64,
}

/// The counters of a procfs `io` record: operation counts from the read and
/// write system calls, byte counts from the storage layer (the character
/// counts, which include cached I/O, are left out).
pub open spec fn io_stats_of(io: Io) -> IOStats {
    IOStats {
        read_count: Some(io.syscr),
        write_count: Some(io.syscw),
        read_bytes: io.read_bytes,
        write_bytes: io.write_bytes,
    }
}

/// The I/O counters of a procfs `io` record.
pub fn io_stats_from(io: &Io) -> (r: IOStats)
    ensures
        r == io_stats_of(*io),
{
    IOStats {
        read_count: Some(io.syscr),
        write_count: Some(io.syscw),
        read_bytes: io.read_bytes,
        write_bytes: io.write_bytes,
    }
}

/// The I/O counters of the current process.
pub fn get_process_io_stats() -> (r: Result<IOStats, MonitorError>)
    ensures
        r is Ok ==> exists|io: Io| #[trigger] io_stats_of(io) == r->Ok_0,
        r is Ok ==> r->Ok_0.read_count is Some && r->Ok_0.write_count is Some,
        r is Err ==> r->Err_0 != MonitorError::InvalidCounterState && r->Err_0
            != MonitorError::UnsupportedPlatform,
{
    let process = current_process()?;
    let io = lift(process_io(&process))?;
    let stats = io_stats_from(&io);
    assert(io_stats_of(io) == stats);
    Ok(stats)
}

} // verus!

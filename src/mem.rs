//! Memory footprint of the current process.
use vstd::prelude::*;

use crate::cpu::{current_process, lift};
use crate::error::MonitorError;
use crate::sys::process_statm;
use procfs::process::StatM;

verus! {

/// Memory use of a process. Fields that the platform does not report are
/// `None`.
#[derive(Debug, Clone, Copy, Default, PartialEq, Eq, Structural)]
pub struct ProcessMemoryInfo {
    /// Non-swapped physical memory in use (`top`'s RES column).
    pub resident_set_size: u64,
    /// Highest resident set size so far.
    pub resident_set_size_peak: Option<u64>,
    /// Total virtual memory in use (`top`'s VIRT column).
    pub virtual_memory_size: u64,
    /// Physical footprint as the Darwin kernel accounts it.
    pub phys_footprint: Option<u64>,
    /// Memory held compressed.
    pub compressed: Option<u64>,
}

/// The memory figures of a procfs `statm` record, in pages as the kernel
/// gives them; Linux reports no peak, footprint or compressed size.
pub open spec fn memory_info_of(statm: StatM) -> ProcessMemoryInfo {
    ProcessMemoryInfo {
        resident_set_size: statm.resident,
        resident_set_size_peak: None,
        virtual_memory_size: statm.size,
        phys_footprint: None,
        compressed: None,
    }
}

/// The memory figures of a procfs `statm` record.
pub fn memory_info_from(statm: &StatM) -> (r: ProcessMemoryInfo)
    ensures
        r == memory_info_of(*statm),
{
    ProcessMemoryInfo {
        resident_set_size: statm.resident,
        resident_set_size_peak: None,
        virtual_memory_size: statm.size,
        phys_footprint: None,
        compressed: None,
    }
}

/// The memory figures of the current process.
pub fn get_process_memory_info() -> (r: Result<ProcessMemoryInfo, MonitorError>)
    ensures
        r is Ok ==> exists|m: StatM| #[trigger] memory_info_of(m) == r->Ok_0,
        r is Ok ==> r->Ok_0.resident_set_size_peak is None && r->Ok_0.phys_footprint is None
            && r->Ok_0.compressed is None,
        r is Err ==> r->Err_0 != MonitorError::InvalidCounterState && r->Err_0
            != MonitorError::UnsupportedPlatform,
{
    let process = current_process()?;
    let statm = lift(process_statm(&process))?;
    let info = memory_info_from(&statm);
    assert(memory_info_of(statm) == info);
    Ok(info)
}

} // verus!

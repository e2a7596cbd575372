//! Per-process and per-thread resource sampling.
//!
//! Cumulative CPU-time counters are normalized to nanoseconds and turned
//! into usage ratios over a sampling interval; memory, descriptor and I/O
//! gauges are one-shot reads.

pub mod error;
pub mod normalize;
pub mod sample;
mod sys;
pub mod cpu;
pub mod fd;
pub mod io;
pub mod mem;

pub use error::MonitorError;
pub use cpu::{
    cpu_time, current_process, current_task, process_cputime, process_cputime_at,
    processor_numbers, ProcessStat, ThreadId, ThreadStat,
};
pub use fd::{fd_count_cur, fd_count_current, fd_count_pid};
pub use io::{get_process_io_stats, IOStats};
pub use mem::{get_process_memory_info, ProcessMemoryInfo};
pub use sample::{Sample, UsageRatio};

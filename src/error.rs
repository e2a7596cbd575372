use vstd::prelude::*;

verus! {

/// What can go wrong while reading a counter or a gauge.
#[derive(Debug, Clone, Copy, PartialEq, Eq, Structural)]
pub enum MonitorError {
    /// The running platform offers no way to read the value.
    UnsupportedPlatform,
    /// The process or thread does not exist (any more), or its identifier
    /// lies beyond the kernel's range.
    TargetNotFound,
    /// The operating system refused the read.
    PermissionDenied,
    /// Any other failure of the operating system query, with its native code
    /// where one was given.
    OsQueryFailure(Option<i32>),
    /// A counter or a derived constant holds a value that cannot be used
    /// (zero ticks per second, a negative total CPU time).
    InvalidCounterState,
}

} // verus!

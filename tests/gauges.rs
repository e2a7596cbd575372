use perf_monitor::{
    current_process, fd_count_cur, fd_count_current, fd_count_pid, get_process_io_stats,
    get_process_memory_info, IOStats, MonitorError, ProcessMemoryInfo,
};
use perf_monitor::io::io_stats_from;
use perf_monitor::mem::memory_info_from;
use procfs::process::{Io, StatM};
use rustix::fs::{Mode, OFlags};

#[test]
fn test_fd_count() {
    const TEMP_DIR: &str = "/tmp";
    const NUM: usize = 100;

    let before = fd_count_cur().unwrap();
    let fds: Vec<_> = (0..NUM)
        .map(|i| {
            let fname = format!("{}/tmpfile{}", TEMP_DIR, i);
            rustix::fs::open(
                fname.as_str(),
                OFlags::CREATE | OFlags::WRONLY | OFlags::CLOEXEC,
                Mode::RUSR | Mode::WUSR,
            )
            .unwrap()
        })
        .collect();
    let count = fd_count_cur().unwrap();

    assert!(count >= NUM);
    assert!(count >= before + NUM);
    let old_count = count;

    drop(fds);
    let count = fd_count_cur().unwrap();
    assert!(count < old_count);
}

#[test]
fn fd_count_by_pid_matches_current() {
    let pid = current_process().unwrap().pid as u32;
    let by_pid = fd_count_pid(pid).unwrap();
    let own = fd_count_current().unwrap();
    assert!(by_pid > 0 && own > 0);
}

#[test]
fn fd_count_pid_out_of_range() {
    assert_eq!(fd_count_pid(u32::MAX), Err(MonitorError::TargetNotFound));
    assert_eq!(fd_count_pid(i32::MAX as u32 + 1), Err(MonitorError::TargetNotFound));
}

#[test]
fn fd_count_pid_missing_process() {
    assert_eq!(fd_count_pid(i32::MAX as u32), Err(MonitorError::TargetNotFound));
}

#[test]
fn io_stats_of_current_process() {
    let stats = get_process_io_stats().unwrap();
    assert!(stats.read_count.is_some());
    assert!(stats.write_count.is_some());
}

#[test]
fn io_stats_take_storage_bytes() {
    let io = Io {
        rchar: 1000,
        wchar: 2000,
        syscr: 7,
        syscw: 9,
        read_bytes: 4096,
        write_bytes: 8192,
        cancelled_write_bytes: 5,
    };
    let expected = IOStats {
        read_count: Some(7),
        write_count: Some(9),
        read_bytes: 4096,
        write_bytes: 8192,
    };
    assert_eq!(io_stats_from(&io), expected);
}

#[test]
fn memory_info_of_current_process() {
    let info = get_process_memory_info().unwrap();
    assert!(info.resident_set_size > 0);
    assert!(info.virtual_memory_size >= info.resident_set_size);
    assert_eq!(info.resident_set_size_peak, None);
}

#[test]
fn memory_info_from_statm_fields() {
    let statm = StatM { size: 300, resident: 120, shared: 40, text: 10, lib: 0, data: 80, dt: 0 };
    let expected = ProcessMemoryInfo {
        resident_set_size: 120,
        resident_set_size_peak: None,
        virtual_memory_size: 300,
        phys_footprint: None,
        compressed: None,
    };
    assert_eq!(memory_info_from(&statm), expected);
}

use perf_monitor::normalize::{
    filetime_sum, filetime_to_ns100, rusage_cputime_nanos, StatTicks, ns100_to_nanos, process_times_nanos, secs_micros_to_nanos,
    stat_cputime_nanos,
};
use perf_monitor::sample::{
    cpu_delta, mach_thread_cpu_delta, mach_thread_usage, processor_share_usage, sample_from_stat,
    usage_saturating, usage_signed, wall_delta, MachThreadTimes, MIN_WALL_NANOS,
};
use perf_monitor::{MonitorError, Sample, UsageRatio};

#[test]
fn stat_ticks_to_nanos() {
    assert_eq!(stat_cputime_nanos(150, 50, 0, 0, 100), Ok(2_000_000_000));
    assert_eq!(stat_cputime_nanos(1, 0, 0, 0, 3), Ok(333_333_333));
    assert_eq!(stat_cputime_nanos(10, 10, -5, 5, 100), Ok(200_000_000));
}

#[test]
fn stat_ticks_zero_rate_rejected() {
    assert_eq!(stat_cputime_nanos(150, 50, 0, 0, 0), Err(MonitorError::InvalidCounterState));
}

#[test]
fn stat_ticks_negative_total_rejected() {
    assert_eq!(stat_cputime_nanos(1, 1, -5, 0, 100), Err(MonitorError::InvalidCounterState));
}

#[test]
fn stat_ticks_saturate() {
    assert_eq!(stat_cputime_nanos(u64::MAX, u64::MAX, i64::MAX, i64::MAX, 1), Ok(u64::MAX));
}

#[test]
fn normalizing_twice_gives_same_value() {
    let a = stat_cputime_nanos(12_345, 678, 9, 10, 100);
    let b = stat_cputime_nanos(12_345, 678, 9, 10, 100);
    assert_eq!(a, b);
    assert_eq!(filetime_to_ns100(3, 4), filetime_to_ns100(3, 4));
    assert_eq!(secs_micros_to_nanos(5, 6), secs_micros_to_nanos(5, 6));
}

#[test]
fn filetime_words_join_high_first() {
    assert_eq!(filetime_to_ns100(1, 5), 4_294_967_301);
    assert_eq!(filetime_to_ns100(0, 7), 7);
    assert_eq!(filetime_to_ns100(u32::MAX, u32::MAX), u64::MAX);
}

#[test]
fn ns100_scale_saturates() {
    assert_eq!(ns100_to_nanos(3), 300);
    assert_eq!(ns100_to_nanos(u64::MAX), u64::MAX);
}

#[test]
fn process_times_scale_by_cpus() {
    assert_eq!(process_times_nanos(3, 4, 2), 1_400);
    assert_eq!(process_times_nanos(3, 4, 0), 0);
    assert_eq!(process_times_nanos(u64::MAX, 1, 1), u64::MAX);
    assert_eq!(process_times_nanos(1 << 60, 0, 16), u64::MAX);
}

#[test]
fn secs_micros_clamp_negative_fields() {
    assert_eq!(secs_micros_to_nanos(2, 500), 2_000_500_000);
    assert_eq!(secs_micros_to_nanos(-1, 500), 500_000);
    assert_eq!(secs_micros_to_nanos(2, -3), 2_000_000_000);
    assert_eq!(secs_micros_to_nanos(i64::MAX, 0), u64::MAX);
}

#[test]
fn backward_clock_gives_zero_wall_delta() {
    let old = Sample { cpu_nanos: 10, at_nanos: 5_000 };
    let new = Sample { cpu_nanos: 20, at_nanos: 4_000 };
    assert_eq!(wall_delta(&old, &new), 0);
    let u = usage_saturating(&old, &new);
    assert_eq!(u, UsageRatio { cpu_nanos: 10, wall_nanos: MIN_WALL_NANOS });
}

#[test]
fn zero_interval_gives_finite_ratio() {
    let old = Sample { cpu_nanos: 1_000, at_nanos: 7_000 };
    let new = Sample { cpu_nanos: 1_500, at_nanos: 7_000 };
    let u = usage_signed(&old, &new);
    assert_eq!(u, UsageRatio { cpu_nanos: 500, wall_nanos: 1_000 });
    let r = u.cpu_nanos as f64 / u.wall_nanos as f64;
    assert!(r.is_finite());
    assert_eq!(r, 0.5);
}

#[test]
fn signed_delta_goes_negative() {
    let old = Sample { cpu_nanos: 9_000, at_nanos: 0 };
    let new = Sample { cpu_nanos: 4_000, at_nanos: 2_000_000 };
    assert_eq!(usage_signed(&old, &new), UsageRatio { cpu_nanos: -5_000, wall_nanos: 2_000_000 });
    assert_eq!(usage_saturating(&old, &new), UsageRatio { cpu_nanos: 0, wall_nanos: 2_000_000 });
    assert_eq!(cpu_delta(&old, &new), 0);
    assert_eq!(cpu_delta(&new, &old), 5_000);
}

#[test]
fn exchange_returns_previous_sample() {
    let mut s = Sample { cpu_nanos: 1, at_nanos: 2 };
    let prev = s.exchange(Sample { cpu_nanos: 3, at_nanos: 4 });
    assert_eq!(prev, Sample { cpu_nanos: 1, at_nanos: 2 });
    assert_eq!(s, Sample { cpu_nanos: 3, at_nanos: 4 });
}

#[test]
fn sample_from_tick_record() {
    let t = StatTicks { utime: 30, stime: 20, cutime: 0, cstime: 0 };
    assert_eq!(
        sample_from_stat(&t, 100, 42),
        Ok(Sample { cpu_nanos: 500_000_000, at_nanos: 42 })
    );
    assert_eq!(sample_from_stat(&t, 0, 42), Err(MonitorError::InvalidCounterState));
    let bad = StatTicks { utime: 1, stime: 0, cutime: -3, cstime: 0 };
    assert_eq!(sample_from_stat(&bad, 100, 42), Err(MonitorError::InvalidCounterState));
}

#[test]
fn filetime_pair_sum() {
    assert_eq!(filetime_sum(1, 0, 0, 5), 4_294_967_301);
    assert_eq!(filetime_sum(u32::MAX, u32::MAX, 0, 1), u64::MAX);
}

#[test]
fn mach_delta_floors_each_part() {
    let old = MachThreadTimes { user_secs: 2, user_micros: 0, system_secs: 1, system_micros: 0 };
    let new = MachThreadTimes { user_secs: 3, user_micros: 500, system_secs: 0, system_micros: 0 };
    // user grew by 1.0005 s, system went backwards and counts as zero
    assert_eq!(mach_thread_cpu_delta(&old, &new), 1_000_500_000);
    assert_eq!(mach_thread_cpu_delta(&new, &old), 1_000_000_000);
}

#[test]
fn mach_usage_over_interval() {
    let old = MachThreadTimes { user_secs: 0, user_micros: 0, system_secs: 0, system_micros: 0 };
    let new = MachThreadTimes { user_secs: 0, user_micros: 250, system_secs: 0, system_micros: 250 };
    assert_eq!(
        mach_thread_usage(&old, &new, 1_000, 1_001_000),
        UsageRatio { cpu_nanos: 500_000, wall_nanos: 1_000_000 }
    );
    assert_eq!(
        mach_thread_usage(&old, &new, 5_000, 5_000),
        UsageRatio { cpu_nanos: 500_000, wall_nanos: MIN_WALL_NANOS }
    );
}

#[test]
fn processor_share_scales_by_cpus() {
    let u = processor_share_usage(0, 0, 5, 10, 2);
    assert_eq!(u, UsageRatio { cpu_nanos: 1_000, wall_nanos: 1_000 });
    let u = processor_share_usage(100, 1_000, 150, 1_400, 4);
    assert_eq!(u, UsageRatio { cpu_nanos: 20_000, wall_nanos: 40_000 });
    assert_eq!(u.cpu_nanos as f64 / u.wall_nanos as f64, 0.5);
}

#[test]
fn processor_share_zero_when_system_time_stands_still() {
    let u = processor_share_usage(0, 700, 50, 700, 8);
    assert_eq!(u, UsageRatio { cpu_nanos: 0, wall_nanos: MIN_WALL_NANOS });
}

#[test]
fn rusage_adds_user_and_system() {
    assert_eq!(rusage_cputime_nanos(1, 500_000, 2, 250_000), 3_750_000_000);
    assert_eq!(rusage_cputime_nanos(-4, 10, 0, -7), 10_000);
    assert_eq!(rusage_cputime_nanos(i64::MAX, 0, i64::MAX, 0), u64::MAX);
}

use edge_runtime::cpu_timer::CPUTimer;
use edge_runtime::cpu_timer::ms_to_timespec_parts;
use edge_runtime::cpu_timer::thread_time_ns;

#[test]
fn expiry_split_is_exact() {
    assert_eq!(ms_to_timespec_parts(0), (0, 0));
    assert_eq!(ms_to_timespec_parts(999), (0, 999_000_000));
    assert_eq!(ms_to_timespec_parts(1000), (1, 0));
    assert_eq!(ms_to_timespec_parts(1500), (1, 500_000_000));
    assert_eq!(ms_to_timespec_parts(60_001), (60, 1_000_000));
}

#[test]
fn arming_covers_expiry_and_interval() {
    let t = CPUTimer::new(2500, 100);
    assert_eq!(t.initial_expiry, 2500);
    assert_eq!(t.interval, 100);
    let a = t.arming();
    assert_eq!(a.value_sec, 2);
    assert_eq!(a.value_nsec, 500_000_000);
    assert_eq!(a.interval_sec, 0);
    assert_eq!(a.interval_nsec, 100_000_000);
}

#[test]
fn thread_time_combines_to_nanoseconds() {
    assert_eq!(thread_time_ns(0, 0), 0);
    assert_eq!(thread_time_ns(2, 5), 2_000_000_005);
    assert_eq!(thread_time_ns(1, 999_999_999), 1_999_999_999);
}

use rt_timestamp::{estimate, midpoint_drift, midpoint_parts, sys_to_us, BeaconMeta, OFFSET_LIMIT};

const T_NS: u64 = 1_700_000_000_000_000_000;
const T_US: u64 = 1_700_000_000_000_000;
const MS_NS: u64 = 1_000_000;
const MS_US: u64 = 1_000;

#[test]
fn symmetric_exchange_has_zero_offset() {
    let m = estimate("a.example:2002", T_NS, 100 * MS_NS, T_US + 50 * MS_US, 1_000);
    assert_eq!(m.offset_us, 0);
    assert_eq!(m.uncert_us, 51_000);
    assert_eq!(m.true_time_us, T_US + 50 * MS_US);
    assert_eq!(m.host, "a.example:2002");
    assert_eq!(m.rtt_ns, 100 * MS_NS);
    assert_eq!(m.midpoint_us, T_US + 50 * MS_US);
    assert_eq!(m.radius_us, 1_000);
}

#[test]
fn beacon_ahead_has_positive_offset() {
    let m = estimate("a", T_NS, 2 * MS_NS, T_US + MS_US + 5_000, 1_000);
    assert_eq!(m.offset_us, 5_000);
    assert_eq!(m.uncert_us, 2_000);
}

#[test]
fn beacon_behind_has_negative_offset() {
    let m = estimate("a", T_NS, 2 * MS_NS, T_US + MS_US - 5_000, 1_000);
    assert_eq!(m.offset_us, -5_000);
    assert_eq!(m.uncert_us, 2_000);
}

#[test]
fn offset_drops_the_fraction_of_a_microsecond_towards_zero() {
    // Local midpoint 1 ns after the beacon's: less than a microsecond apart.
    assert_eq!(estimate("a", T_NS + 1, 0, T_US, 0).offset_us, 0);
    assert_eq!(estimate("a", T_NS + 999, 0, T_US, 0).offset_us, 0);
    assert_eq!(estimate("a", T_NS + 1_000, 0, T_US, 0).offset_us, -1);
    assert_eq!(estimate("a", T_NS + 1_001, 0, T_US, 0).offset_us, -1);
    assert_eq!(estimate("a", T_NS + 1, 0, T_US + 1, 0).offset_us, 0);
    assert_eq!(estimate("a", T_NS + 1, 0, T_US + 2, 0).offset_us, 1);
}

#[test]
fn half_round_trip_is_of_whole_microseconds() {
    // 3.999 microseconds of round trip are 3 whole ones, half of which is 1.
    let m = estimate("a", T_NS, 3_999, T_US + 1, 10);
    assert_eq!(m.uncert_us, 11);
    assert_eq!(m.true_time_us, T_US + 1);
    assert_eq!(m.offset_us, 0);
}

#[test]
fn estimate_at_the_limits_stays_in_range() {
    let m = estimate("a", u64::MAX, u64::MAX, 0, u32::MAX);
    assert!(m.check_range());
    assert!(m.offset_us < 0);
    assert_eq!(m.uncert_us, u32::MAX as i128 + (u64::MAX / 1000 / 2) as i128);
    let m = estimate("a", 0, 0, u64::MAX, 0);
    assert!(m.check_range());
    assert_eq!(m.offset_us, u64::MAX as i128);
    assert_eq!(m.true_time_us, 0);
}

#[test]
fn range_check_refuses_what_the_estimator_cannot_yield() {
    let mut m = estimate("a", T_NS, 0, T_US, 0);
    assert!(m.check_range());
    m.offset_us = OFFSET_LIMIT;
    assert!(!m.check_range());
    m.offset_us = -OFFSET_LIMIT;
    assert!(!m.check_range());
    m.offset_us = OFFSET_LIMIT - 1;
    assert!(m.check_range());
    m.uncert_us = -1;
    assert!(!m.check_range());
    m.uncert_us = OFFSET_LIMIT;
    assert!(!m.check_range());
    let fresh: BeaconMeta = estimate("a", T_NS, 0, T_US, 0);
    assert!(fresh.check_range());
}

#[test]
fn sys_to_us_counts_whole_microseconds() {
    assert_eq!(sys_to_us(0), 0);
    assert_eq!(sys_to_us(999), 0);
    assert_eq!(sys_to_us(1_000), 1);
    assert_eq!(sys_to_us(T_NS + 123_456), T_US + 123);
    assert_eq!(sys_to_us(u64::MAX), 18_446_744_073_709_551);
}

#[test]
fn midpoint_splits_into_seconds_and_nanoseconds() {
    assert_eq!(midpoint_parts(0), (0, 0));
    assert_eq!(midpoint_parts(1_700_000_000_123_456), (1_700_000_000, 123_456_000));
    assert_eq!(midpoint_parts(999_999), (0, 999_999_000));
    assert_eq!(midpoint_parts(u64::MAX), (18_446_744_073_709, 551_615_000));
}

#[test]
fn midpoint_drift_is_the_distance() {
    assert_eq!(midpoint_drift(10, 3), 7);
    assert_eq!(midpoint_drift(3, 10), 7);
    assert_eq!(midpoint_drift(5, 5), 0);
    assert_eq!(midpoint_drift(0, u64::MAX), u64::MAX);
}

use std::time::{Duration, UNIX_EPOCH};

use kernel::{MonotonicClock, SystemMonotonicClock, SystemWallClock, TimeError, UnixTimeNs, WallClock};

#[test]
fn epoch_is_zero() {
    assert_eq!(UnixTimeNs::unix_epoch().as_unix_nanos(), 0);
}

#[test]
fn positive_units_to_nanos() {
    assert_eq!(UnixTimeNs::try_from_unix_seconds(1).unwrap().as_unix_nanos(), 1_000_000_000);
    assert_eq!(UnixTimeNs::try_from_unix_millis(1).unwrap().as_unix_nanos(), 1_000_000);
    assert_eq!(UnixTimeNs::try_from_unix_micros(1).unwrap().as_unix_nanos(), 1_000);
}

#[test]
fn negative_units_to_nanos() {
    assert_eq!(UnixTimeNs::try_from_unix_seconds(-1).unwrap().as_unix_nanos(), -1_000_000_000);
    assert_eq!(UnixTimeNs::try_from_unix_millis(-1).unwrap().as_unix_nanos(), -1_000_000);
    assert_eq!(UnixTimeNs::try_from_unix_micros(-1).unwrap().as_unix_nanos(), -1_000);
}

#[test]
fn overflow_rejected() {
    assert_eq!(UnixTimeNs::try_from_unix_seconds(i64::MAX), Err(TimeError::Overflow));
    assert_eq!(UnixTimeNs::try_from_unix_seconds(i64::MIN), Err(TimeError::Overflow));
    assert_eq!(UnixTimeNs::try_from_unix_millis(i64::MAX), Err(TimeError::Overflow));
    assert_eq!(UnixTimeNs::try_from_unix_micros(i64::MAX), Err(TimeError::Overflow));
}

#[test]
fn safe_range_roundtrip() {
    for v in [0_i64, 1, -1, 1_700_000_000_123_456_789, -1_700_000_000_000_000_000] {
        let t = UnixTimeNs::from_unix_nanos(v);
        assert_eq!(t.as_unix_nanos(), v);
    }
}

#[test]
fn checked_add_sub_normal() {
    let t = UnixTimeNs::from_unix_nanos(100);
    assert_eq!(t.checked_add(Duration::from_nanos(50)).unwrap().as_unix_nanos(), 150);
    assert_eq!(t.checked_sub(Duration::from_nanos(50)).unwrap().as_unix_nanos(), 50);
}

#[test]
fn checked_add_overflow() {
    let t = UnixTimeNs::from_unix_nanos(i64::MAX);
    assert_eq!(t.checked_add(Duration::from_nanos(1)), Err(TimeError::Overflow));
    let t = UnixTimeNs::from_unix_nanos(i64::MIN);
    assert_eq!(t.checked_sub(Duration::from_nanos(1)), Err(TimeError::Overflow));
}

#[test]
fn duration_since_reverse_fails() {
    let earlier = UnixTimeNs::from_unix_nanos(10);
    let later = UnixTimeNs::from_unix_nanos(100);
    assert_eq!(
        earlier.duration_since(later),
        Err(TimeError::InvalidOrder { later: earlier, earlier: later })
    );
    assert_eq!(later.duration_since(earlier).unwrap(), Duration::from_nanos(90));
}

#[test]
fn system_time_conversions() {
    assert_eq!(UnixTimeNs::try_from_system_time(UNIX_EPOCH).unwrap(), UnixTimeNs::unix_epoch());
    let after = UNIX_EPOCH + Duration::from_nanos(1234);
    assert_eq!(UnixTimeNs::try_from_system_time(after).unwrap().as_unix_nanos(), 1234);
    let before = UNIX_EPOCH.checked_sub(Duration::from_secs(1)).expect("epoch-1s");
    assert_eq!(UnixTimeNs::try_from_system_time(before), Err(TimeError::SystemTimeOutOfRange));
    let after_i64_ns = UNIX_EPOCH + Duration::from_secs(10_000_000_000);
    assert_eq!(
        UnixTimeNs::try_from_system_time(after_i64_ns),
        Err(TimeError::SystemTimeOutOfRange)
    );
    let t = UnixTimeNs::from_unix_nanos(1234);
    assert_eq!(t.try_into_system_time().unwrap(), UNIX_EPOCH + Duration::from_nanos(1234));
    assert_eq!(
        UnixTimeNs::from_unix_nanos(-1).try_into_system_time(),
        Err(TimeError::SystemTimeOutOfRange)
    );
}

#[test]
fn named_unit_constructors_do_not_infer_i64_unit() {
    let t = UnixTimeNs::try_from_unix_millis(42).expect("ms");
    assert_eq!(t.as_unix_nanos(), 42_000_000);
    assert_eq!(UnixTimeNs::try_from_unix_millis(i64::MIN), Err(TimeError::Overflow));
    assert_eq!(UnixTimeNs::try_from_unix_micros(i64::MIN), Err(TimeError::Overflow));
}

#[test]
fn millis_roundtrip_samples() {
    for millis in [0_i64, 1, -1, 42, -42, 9_223_372_036_854, -9_223_372_036_854, 9_223_372_036_855, i64::MAX, i64::MIN] {
        let nanos = i128::from(millis) * 1_000_000;
        if let Ok(n_i64) = i64::try_from(nanos) {
            let t = UnixTimeNs::try_from_unix_millis(millis).unwrap();
            assert_eq!(t.as_unix_nanos(), n_i64);
            assert_eq!(UnixTimeNs::from_unix_nanos(t.as_unix_nanos()), t);
        } else {
            assert_eq!(UnixTimeNs::try_from_unix_millis(millis), Err(TimeError::Overflow));
        }
    }
}

#[test]
fn unix_time_min_max_and_u64_edges() {
    let min = UnixTimeNs::from_unix_nanos(i64::MIN);
    let max = UnixTimeNs::from_unix_nanos(i64::MAX);
    assert_eq!(min.as_unix_nanos(), i64::MIN);
    assert_eq!(max.as_unix_nanos(), i64::MAX);
    let full_i64_span = Duration::from_nanos(u64::MAX);
    assert_eq!(min.checked_add(full_i64_span), Ok(max));
    assert_eq!(max.checked_sub(full_i64_span), Ok(min));
    assert_eq!(max.duration_since(min), Ok(full_i64_span));
    assert!(max.duration_since(min).is_ok());
    assert!(min.duration_since(max).is_err());
    assert!(max.checked_add(Duration::from_nanos(1)).is_err());
    assert!(min.checked_sub(Duration::from_nanos(1)).is_err());
    assert_eq!(max.duration_since(max), Ok(Duration::ZERO));
    assert_eq!(UnixTimeNs::unix_epoch().checked_add(Duration::MAX), Err(TimeError::Overflow));
    let huge = Duration::from_secs(u64::from(u32::MAX));
    assert!(UnixTimeNs::from_unix_nanos(0).checked_add(huge).is_ok());
    let near_max = UnixTimeNs::from_unix_nanos(i64::MAX - 10);
    assert!(near_max.checked_add(Duration::from_nanos(20)).is_err());
    assert_eq!(near_max.checked_add(Duration::from_nanos(10)).unwrap().as_unix_nanos(), i64::MAX);
}

#[test]
fn pre_epoch_nanosecond_is_representable() {
    assert_eq!(UnixTimeNs::from_unix_nanos(-1).as_unix_nanos(), -1);
}

#[test]
fn millisecond_conversion_overflow_is_rejected() {
    assert!(UnixTimeNs::try_from_unix_millis(i64::MAX).is_err());
}

#[test]
fn unix_time_preserves_epoch_nanos() {
    let time = UnixTimeNs::from_unix_nanos(-123);
    assert_eq!(time.as_unix_nanos(), -123);
}

#[test]
fn unix_time_and_clock_surface() {
    let t = UnixTimeNs::from_unix_nanos(100);
    assert_eq!(t.as_unix_nanos(), 100);
    assert_eq!(t.checked_add(Duration::from_nanos(3)).unwrap().as_unix_nanos(), 103);
    assert_eq!(t.checked_sub(Duration::from_nanos(3)).unwrap().as_unix_nanos(), 97);
    assert_eq!(
        UnixTimeNs::from_unix_nanos(110).duration_since(t).unwrap(),
        Duration::from_nanos(10)
    );
    assert_eq!(t.checked_sub(Duration::from_nanos(200)).unwrap().as_unix_nanos(), -100);
    assert!(UnixTimeNs::from_unix_nanos(i64::MIN).checked_sub(Duration::from_nanos(1)).is_err());
    assert!(t < UnixTimeNs::from_unix_nanos(101));
    assert_eq!(t.cmp(&UnixTimeNs::from_unix_nanos(100)), std::cmp::Ordering::Equal);

    let c = SystemWallClock::new();
    let now = c.now().unwrap();
    assert!(now.as_unix_nanos() > 0);
    let m = SystemMonotonicClock::new();
    let a = m.now();
    let b = m.now();
    assert!(b >= a);

    let d: SystemWallClock = Default::default();
    assert!(d.now().unwrap().as_unix_nanos() > 0);
    let cloned = c;
    assert!(cloned.now().unwrap().as_unix_nanos() > 0);

    let as_wall: &dyn WallClock = &c;
    assert!(as_wall.now().unwrap().as_unix_nanos() > 0);
    let as_mono: &dyn MonotonicClock = &m;
    let _ = as_mono.now();

    assert!(!TimeError::Overflow.to_message().is_empty());
    assert!(!TimeError::SystemTimeOutOfRange.to_message().is_empty());
    assert_eq!(TimeError::Overflow, TimeError::Overflow);
    assert_ne!(TimeError::Overflow, TimeError::SystemTimeOutOfRange);
}

#[test]
fn nanosecond_entry_points_take_raw_counts() {
    let t = UnixTimeNs::from_unix_nanos(-5);
    assert_eq!(t.checked_add_nanos(7).unwrap().as_unix_nanos(), 2);
    assert_eq!(t.checked_sub_nanos(7).unwrap().as_unix_nanos(), -12);
    assert_eq!(
        UnixTimeNs::from_unix_nanos(i64::MAX).checked_add_nanos(1),
        Err(TimeError::Overflow)
    );
    assert_eq!(UnixTimeNs::from_unix_nanos(0).checked_add_nanos(u128::MAX), Err(TimeError::Overflow));
    assert_eq!(UnixTimeNs::try_from_epoch_nanos(1234).unwrap().as_unix_nanos(), 1234);
    assert_eq!(
        UnixTimeNs::try_from_epoch_nanos(i64::MAX as u128 + 1),
        Err(TimeError::SystemTimeOutOfRange)
    );
}

#[test]
fn subsecond_durations_count_in_nanoseconds() {
    let t = UnixTimeNs::unix_epoch();
    let d = Duration::new(2, 500);
    assert_eq!(t.checked_add(d).unwrap().as_unix_nanos(), 2_000_000_500);
    assert_eq!(t.checked_sub(d).unwrap().as_unix_nanos(), -2_000_000_500);
    let back = UnixTimeNs::from_unix_nanos(2_000_000_500).duration_since(t).unwrap();
    assert_eq!(back, d);
}

#[test]
fn time_error_messages() {
    assert_eq!(TimeError::Overflow.to_message(), "时间单位转换溢出");
    assert_eq!(TimeError::SystemTimeOutOfRange.to_message(), "系统时间超出支持范围");
    let e = TimeError::InvalidOrder {
        later: UnixTimeNs::from_unix_nanos(1),
        earlier: UnixTimeNs::from_unix_nanos(-2),
    };
    assert_eq!(e.to_message(), "时间顺序非法: later=UnixTimeNs(1), earlier=UnixTimeNs(-2)");
}

#[test]
fn system_time_round_trip_after_epoch() {
    let t = UnixTimeNs::from_unix_nanos(1_700_000_000_123_456_789);
    let st = t.try_into_system_time().unwrap();
    assert_eq!(UnixTimeNs::try_from_system_time(st), Ok(t));
}

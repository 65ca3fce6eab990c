use kernel::{
    quantize_unix_ns, require_lossless_unix_ns, stored_to_unix_ns, unix_ns_to_stored,
    verify_pg_dual_column, ErrorKind, PrecisionLossPolicy, TimePrecision,
    TimeStorageCapabilities,
};

#[test]
fn reject_default_policy() {
    assert_eq!(PrecisionLossPolicy::default(), PrecisionLossPolicy::Reject);
}

#[test]
fn ns_round_trip_lossless() {
    let ns = 1_700_000_000_123_456_789_i64;
    let stored = unix_ns_to_stored(ns, TimePrecision::Nanoseconds, PrecisionLossPolicy::Reject)
        .expect("ns");
    assert_eq!(stored, ns);
    assert_eq!(stored_to_unix_ns(stored, TimePrecision::Nanoseconds).unwrap(), ns);
}

#[test]
fn reject_sub_ms_bits() {
    let ns = 1_500_000_001_i64;
    let err = unix_ns_to_stored(ns, TimePrecision::Milliseconds, PrecisionLossPolicy::Reject)
        .unwrap_err();
    assert_eq!(err.kind(), ErrorKind::Invalid);
    assert!(err.context().contains("精度损失"));
}

#[test]
fn explicit_truncate_ms() {
    let ns = 1_500_000_001_i64;
    let stored =
        unix_ns_to_stored(ns, TimePrecision::Milliseconds, PrecisionLossPolicy::ExplicitTruncate)
            .unwrap();
    assert_eq!(stored, 1500);
    assert_eq!(stored_to_unix_ns(stored, TimePrecision::Milliseconds).unwrap(), 1_500_000_000);
}

#[test]
fn aligned_ms_accepted_under_reject() {
    let ns = 1_500_000_000_i64;
    let stored =
        unix_ns_to_stored(ns, TimePrecision::Milliseconds, PrecisionLossPolicy::Reject).unwrap();
    assert_eq!(stored, 1500);
}

#[test]
fn required_lossless_gate() {
    let ok = TimeStorageCapabilities::new(TimePrecision::Nanoseconds, true, true);
    require_lossless_unix_ns(ok).unwrap();
    let bad = TimeStorageCapabilities::new(TimePrecision::Milliseconds, true, false);
    let err = require_lossless_unix_ns(bad).unwrap_err();
    assert_eq!(err.kind(), ErrorKind::Invalid);
}

#[test]
fn pg_dual_column_ok_when_projection_matches_us() {
    let ns = 1_700_000_000_123_456_789_i64;
    let tz_ns = 1_700_000_000_123_456_000_i64;
    verify_pg_dual_column(ns, tz_ns).unwrap();
}

#[test]
fn pg_dual_column_rejects_mismatch() {
    let ns = 1_700_000_000_123_456_789_i64;
    let wrong = 1_700_000_000_999_999_000_i64;
    let err = verify_pg_dual_column(ns, wrong).unwrap_err();
    assert_eq!(err.kind(), ErrorKind::Invalid);
}

#[test]
fn stored_to_unix_ns_seconds_max_overflows_as_invalid() {
    let err = stored_to_unix_ns(i64::MAX, TimePrecision::Seconds).unwrap_err();
    assert_eq!(err.kind(), ErrorKind::Invalid);
}

#[test]
fn negative_pre_epoch_reject_and_truncate() {
    let ns = -1_500_000_001_i64;
    assert!(
        unix_ns_to_stored(ns, TimePrecision::Milliseconds, PrecisionLossPolicy::Reject).is_err()
    );
    let stored =
        unix_ns_to_stored(ns, TimePrecision::Milliseconds, PrecisionLossPolicy::ExplicitTruncate)
            .unwrap();
    assert_eq!(stored, -1500);
}

#[test]
fn precision_loss_is_rejected_by_default_policy() {
    assert!(
        unix_ns_to_stored(1_500_000_001, TimePrecision::Seconds, PrecisionLossPolicy::Reject)
            .is_err()
    );
}

#[test]
fn explicit_truncation_toward_zero_handles_negative_values() {
    assert!(matches!(
        unix_ns_to_stored(-1_500_000_000, TimePrecision::Seconds, PrecisionLossPolicy::ExplicitTruncate),
        Ok(-1)
    ));
}

#[test]
fn time_storage_enforces_precision_policy() {
    assert!(
        unix_ns_to_stored(1_000_000_001, TimePrecision::Seconds, PrecisionLossPolicy::Reject)
            .is_err()
    );
    assert!(matches!(
        unix_ns_to_stored(1_000_000_001, TimePrecision::Seconds, PrecisionLossPolicy::ExplicitTruncate),
        Ok(1)
    ));
}

#[test]
fn time_storage_surface() {
    assert_eq!(PrecisionLossPolicy::default(), PrecisionLossPolicy::Reject);
    let caps = TimeStorageCapabilities::new(TimePrecision::Nanoseconds, true, true);
    require_lossless_unix_ns(caps).unwrap();
    let ns = 1_500_000_000_i64;
    let stored =
        unix_ns_to_stored(ns, TimePrecision::Milliseconds, PrecisionLossPolicy::Reject).unwrap();
    assert_eq!(stored, 1500);
    assert_eq!(stored_to_unix_ns(stored, TimePrecision::Milliseconds).unwrap(), ns);
    assert_eq!(
        quantize_unix_ns(ns, TimePrecision::Milliseconds, PrecisionLossPolicy::Reject).unwrap(),
        ns
    );
    verify_pg_dual_column(1_000_000_123, 1_000_000_000).unwrap();
    assert!(
        unix_ns_to_stored(1, TimePrecision::Milliseconds, PrecisionLossPolicy::Reject).is_err()
    );
}

#[test]
fn microsecond_storage_example() {
    let stored = unix_ns_to_stored(
        1_500,
        TimePrecision::Microseconds,
        PrecisionLossPolicy::ExplicitTruncate,
    )
    .expect("quantize to microsecond storage");
    assert_eq!(stored, 1);
    let restored = stored_to_unix_ns(stored, TimePrecision::Microseconds)
        .expect("restore from microsecond storage");
    assert_eq!(restored, 1_000);
}

#[test]
fn precision_units_and_losslessness() {
    assert_eq!(TimePrecision::Seconds.nanos_per_unit(), 1_000_000_000);
    assert_eq!(TimePrecision::Milliseconds.nanos_per_unit(), 1_000_000);
    assert_eq!(TimePrecision::Microseconds.nanos_per_unit(), 1_000);
    assert_eq!(TimePrecision::Nanoseconds.nanos_per_unit(), 1);
    assert!(TimePrecision::Nanoseconds.is_lossless_unix_ns());
    assert!(!TimePrecision::Microseconds.is_lossless_unix_ns());
    assert!(!TimePrecision::Milliseconds.is_lossless_unix_ns());
    assert!(!TimePrecision::Seconds.is_lossless_unix_ns());
    let caps = TimeStorageCapabilities::new(TimePrecision::Microseconds, false, true);
    assert_eq!(caps.stored_precision, TimePrecision::Microseconds);
    assert!(!caps.utc_normalized);
    assert!(caps.lossless_unix_ns);
}

#[test]
fn error_contexts_name_the_failure() {
    let e = unix_ns_to_stored(1_500_000_001, TimePrecision::Milliseconds, PrecisionLossPolicy::Reject)
        .unwrap_err();
    assert_eq!(
        e.context(),
        "时间精度损失被拒绝：unix_ns=1500000001 无法无损落入 Milliseconds（scale=1000000）"
    );
    let e = stored_to_unix_ns(i64::MAX, TimePrecision::Seconds).unwrap_err();
    assert!(e.context().starts_with("存储时间乘 scale=1000000000 溢出"));
    let e = require_lossless_unix_ns(TimeStorageCapabilities::new(
        TimePrecision::Milliseconds,
        true,
        false,
    ))
    .unwrap_err();
    assert_eq!(
        e.context(),
        "required-lossless profile 被拒绝：stored_precision=Milliseconds, lossless_unix_ns=false"
    );
    let e = verify_pg_dual_column(1_000_001_000, 1_000_000_000).unwrap_err();
    assert!(e.context().starts_with("PostgreSQL 双列不一致：event_time_ns=1000001000"));
}

#[test]
fn quantize_errors_and_negative_truncation() {
    let e = quantize_unix_ns(1_001, TimePrecision::Microseconds, PrecisionLossPolicy::Reject)
        .unwrap_err();
    assert_eq!(e.kind(), ErrorKind::Invalid);
    assert_eq!(
        quantize_unix_ns(-1_999, TimePrecision::Microseconds, PrecisionLossPolicy::ExplicitTruncate)
            .unwrap(),
        -1_000
    );
    assert_eq!(
        quantize_unix_ns(i64::MAX, TimePrecision::Seconds, PrecisionLossPolicy::ExplicitTruncate)
            .unwrap(),
        9_223_372_036_000_000_000
    );
    assert_eq!(
        quantize_unix_ns(i64::MIN, TimePrecision::Nanoseconds, PrecisionLossPolicy::Reject).unwrap(),
        i64::MIN
    );
}

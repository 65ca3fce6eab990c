//! The boundary to `std::time`: the system clocks and the `Duration` and `SystemTime`
//! arithmetic that the time model relies on.
//!
//! Everything here is trusted, not proved. Nothing here assumes nanosecond precision of
//! `SystemTime`: a time built from a duration may be truncated to the platform's precision. `duration_nanos` names what
//! `Duration::as_nanos` returns for a duration, and `system_time_offset` the signed
//! distance of a `SystemTime` from `UNIX_EPOCH` that `SystemTime::duration_since` and
//! `SystemTime::checked_add` measure and move by.

use std::time::{Duration, Instant, SystemTime, UNIX_EPOCH};
use vstd::prelude::*;

verus! {

#[verifier::external_type_specification]
#[verifier::external_body]
pub struct ExSystemTime(SystemTime);

#[verifier::external_type_specification]
#[verifier::external_body]
pub struct ExInstant(Instant);

/// The total number of nanoseconds that a `Duration` holds, as `Duration::as_nanos`
/// reports it.
pub uninterp spec fn duration_nanos(d: Duration) -> nat;

/// The signed number of nanoseconds from `UNIX_EPOCH` to a `SystemTime`.
pub uninterp spec fn system_time_offset(t: SystemTime) -> int;

/// `Duration::as_nanos`: believed to return the total nanoseconds of `d`.
#[verifier::external_body]
pub(crate) fn duration_as_nanos(d: &Duration) -> (n: u128)
    ensures
        n == duration_nanos(*d),
{
    d.as_nanos()
}

/// `Duration::from_nanos`: believed to build a duration of exactly `n` nanoseconds.
#[verifier::external_body]
pub(crate) fn duration_from_nanos(n: u64) -> (d: Duration)
    ensures
        duration_nanos(d) == n,
{
    Duration::from_nanos(n)
}

/// `SystemTime::duration_since(UNIX_EPOCH)`: believed to succeed exactly when `t` is not
/// before the epoch, with the elapsed time as the duration.
#[verifier::external_body]
pub(crate) fn since_unix_epoch(t: &SystemTime) -> (r: Option<Duration>)
    ensures
        r is Some <==> system_time_offset(*t) >= 0,
        r matches Some(d) ==> duration_nanos(d) == system_time_offset(*t),
{
    t.duration_since(UNIX_EPOCH).ok()
}

/// `SystemTime::checked_add` on `UNIX_EPOCH`: believed, when it succeeds, to give a time
/// not before the epoch and at most `d` after it; and to fail only where the sum cannot
/// be represented, that is, lies beyond every `SystemTime` (std documents `None` exactly
/// for a sum outside the bounds of the underlying data structure; a sum after the epoch
/// can only leave them at the top). `SystemTime`'s precision depends on the platform
/// (100 ns intervals on Windows), so the exact offset is left unsaid, and so is where the
/// platform's range ends.
#[verifier::external_body]
pub(crate) fn unix_epoch_plus(d: Duration) -> (r: Option<SystemTime>)
    ensures
        r matches Some(t) ==> 0 <= system_time_offset(t) <= duration_nanos(d),
        r is None ==> forall|t: SystemTime| system_time_offset(t) < duration_nanos(d),
{
    UNIX_EPOCH.checked_add(d)
}

/// `SystemTime::now`: reads the system clock; nothing is promised of the result.
#[verifier::external_body]
pub(crate) fn system_time_now() -> SystemTime {
    SystemTime::now()
}

/// `Instant::now`: reads the monotonic clock; nothing is promised of the result.
#[verifier::external_body]
pub(crate) fn instant_now() -> Instant {
    Instant::now()
}

} // verus!

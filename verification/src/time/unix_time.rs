//! The absolute instant [`UnixTimeNs`] (UTC POSIX epoch nanoseconds) and [`TimeError`].
//!
//! Seconds, milliseconds and microseconds become nanoseconds by checked multiplication;
//! `duration_since` refuses a reversed order instead of saturating; instants before the
//! epoch are supported.

use std::time::{Duration, SystemTime};
use vstd::prelude::*;

use crate::decimal::{decimal_text, push_decimal};

use super::system::{
    duration_as_nanos, duration_from_nanos, duration_nanos, since_unix_epoch,
    system_time_offset, unix_epoch_plus,
};

verus! {

/// Unit conversion and time order errors.
#[non_exhaustive]
#[derive(Debug, Clone, PartialEq, Eq, Structural)]
pub enum TimeError {
    /// A unit conversion left the range of `i64` nanoseconds.
    Overflow,
    /// The order of two instants is wrong (`later` is before `earlier`).
    InvalidOrder {
        /// The instant that was expected to be the later one.
        later: UnixTimeNs,
        /// The instant that was expected to be the earlier one.
        earlier: UnixTimeNs,
    },
    /// A `SystemTime` lies outside the range of `i64` nanoseconds (or before the epoch).
    SystemTimeOutOfRange,
}

/// The human-readable description of a [`TimeError`]; for `InvalidOrder` it shows both
/// instants as `UnixTimeNs(<nanoseconds>)`.
pub open spec fn time_error_text(err: TimeError) -> Seq<char> {
    match err {
        TimeError::Overflow => "时间单位转换溢出"@,
        TimeError::InvalidOrder { later, earlier } => "时间顺序非法: later=UnixTimeNs("@
            + decimal_text(later@ as int) + "), earlier=UnixTimeNs("@ + decimal_text(
            earlier@ as int,
        ) + ")"@,
        TimeError::SystemTimeOutOfRange => "系统时间超出支持范围"@,
    }
}

impl TimeError {
    /// The human-readable description of this error (for `InvalidOrder`, with both
    /// instants); never empty.
    pub fn to_message(&self) -> (s: String)
        ensures
            s@ == time_error_text(*self),
            s@.len() > 0,
    {
        match self {
            TimeError::Overflow => {
                proof {
                    reveal_strlit("时间单位转换溢出");
                }
                "时间单位转换溢出".to_owned()
            },
            TimeError::InvalidOrder { later, earlier } => {
                let mut s = "时间顺序非法: later=UnixTimeNs(".to_owned();
                push_decimal(&mut s, later.0);
                s.append("), earlier=UnixTimeNs(");
                push_decimal(&mut s, earlier.0);
                s.append(")");
                proof {
                    reveal_strlit("时间顺序非法: later=UnixTimeNs(");
                }
                assert(s@ =~= time_error_text(*self));
                s
            },
            TimeError::SystemTimeOutOfRange => {
                proof {
                    reveal_strlit("系统时间超出支持范围");
                }
                "系统时间超出支持范围".to_owned()
            },
        }
    }
}

/// An absolute instant: nanoseconds since the UTC POSIX epoch, before or after it.
///
/// Deliberately without `Default`: a zero value must not pass for a real time.
#[derive(Debug, Clone, Copy, PartialEq, Eq, Structural, PartialOrd, Ord, Hash)]
pub struct UnixTimeNs(i64);

impl View for UnixTimeNs {
    type V = i64;

    closed spec fn view(&self) -> i64 {
        self.0
    }
}

/// Whether the integer `v` is a value of `i64`.
pub open spec fn fits_i64(v: int) -> bool {
    i64::MIN <= v <= i64::MAX
}

/// `v` as an `i64`, or `None` where it leaves the range of `i64`.
pub open spec fn in_i64(v: int) -> Option<i64> {
    if fits_i64(v) {
        Some(v as i64)
    } else {
        None
    }
}

/// The nanoseconds of `count` units of `scale` nanoseconds each, where they fit in `i64`.
pub open spec fn scaled_nanos(count: int, scale: int) -> Option<i64> {
    in_i64(count * scale)
}

/// The instant `delta` nanoseconds after `base` (before it where `delta` is negative), where
/// it fits in `i64`.
pub open spec fn shifted_nanos(base: i64, delta: int) -> Option<i64> {
    in_i64(base + delta)
}

/// The nanoseconds from `earlier` to `later`, or `None` where `later` is before `earlier`.
pub open spec fn nanos_between(later: i64, earlier: i64) -> Option<nat> {
    if later >= earlier {
        Some((later - earlier) as nat)
    } else {
        None
    }
}

/// Whether `r` is the instant `v` holds, or the error `err` where `v` holds none.
pub open spec fn instant_or(r: Result<UnixTimeNs, TimeError>, v: Option<i64>, err: TimeError) -> bool {
    match v {
        Some(n) => r matches Ok(t) && t@ == n,
        None => r == Err::<UnixTimeNs, TimeError>(err),
    }
}

/// Whether `r` is the instant `v` holds, or `Overflow` where `v` holds none.
pub open spec fn instant_or_overflow(r: Result<UnixTimeNs, TimeError>, v: Option<i64>) -> bool {
    instant_or(r, v, TimeError::Overflow)
}

/// Whether some `SystemTime` lies `nanos` nanoseconds or more after the epoch, that is,
/// whether the platform's `SystemTime` reaches that far.
pub open spec fn system_time_reaches(nanos: int) -> bool {
    exists|s: SystemTime| system_time_offset(s) >= nanos
}

/// What converting `value` to an instant yields: its offset from the epoch where that is
/// not negative and fits in `i64`, else `SystemTimeOutOfRange`.
pub open spec fn from_system_time_result(value: SystemTime, r: Result<UnixTimeNs, TimeError>) -> bool {
    instant_or(
        r,
        if system_time_offset(value) >= 0 {
            in_i64(system_time_offset(value))
        } else {
            None
        },
        TimeError::SystemTimeOutOfRange,
    )
}

/// What converting the instant `t` to a `SystemTime` may yield: `SystemTimeOutOfRange`
/// for an instant before the epoch; success wherever the platform's `SystemTime` reaches
/// the instant; a result not before the epoch and not after the instant; and no error but
/// `SystemTimeOutOfRange`.
pub open spec fn into_system_time_result(t: UnixTimeNs, r: Result<SystemTime, TimeError>) -> bool {
    &&& t@ < 0 ==> r == Err::<SystemTime, TimeError>(TimeError::SystemTimeOutOfRange)
    &&& (t@ >= 0 && system_time_reaches(t@ as int)) ==> r is Ok
    &&& r matches Ok(s) ==> 0 <= system_time_offset(s) <= t@
    &&& r is Err ==> r == Err::<SystemTime, TimeError>(TimeError::SystemTimeOutOfRange)
}

impl UnixTimeNs {
    /// The Unix epoch (1970-01-01T00:00:00Z).
    pub fn unix_epoch() -> (t: Self)
        ensures
            t@ == 0,
    {
        UnixTimeNs(0)
    }

    /// Builds an instant from nanoseconds (the one unchecked constructor).
    pub fn from_unix_nanos(nanos: i64) -> (t: Self)
        ensures
            t@ == nanos,
    {
        UnixTimeNs(nanos)
    }

    /// Returns the nanoseconds since the epoch.
    pub fn as_unix_nanos(self) -> (n: i64)
        ensures
            n == self@,
    {
        self.0
    }

    /// `count` units of `scale` nanoseconds, by checked multiplication.
    fn try_from_scaled(count: i64, scale: i128) -> (r: Result<Self, TimeError>)
        requires
            1 <= scale <= 1_000_000_000,
        ensures
            instant_or_overflow(r, scaled_nanos(count as int, scale as int)),
    {
        assert(i64::MIN * 1_000_000_000 <= count * scale <= i64::MAX * 1_000_000_000)
            by (nonlinear_arith)
            requires
                1 <= scale <= 1_000_000_000,
                i64::MIN <= count <= i64::MAX,
        ;
        let nanos = match (count as i128).checked_mul(scale) {
            Some(n) => n,
            None => return Err(TimeError::Overflow),
        };
        if nanos < i64::MIN as i128 || nanos > i64::MAX as i128 {
            return Err(TimeError::Overflow);
        }
        Ok(UnixTimeNs(nanos as i64))
    }

    /// Builds an instant from Unix microseconds; `Overflow` where the nanoseconds leave `i64`.
    pub fn try_from_unix_micros(micros: i64) -> (r: Result<Self, TimeError>)
        ensures
            instant_or_overflow(r, scaled_nanos(micros as int, 1_000)),
    {
        Self::try_from_scaled(micros, 1_000)
    }

    /// Builds an instant from Unix milliseconds; `Overflow` where the nanoseconds leave `i64`.
    pub fn try_from_unix_millis(millis: i64) -> (r: Result<Self, TimeError>)
        ensures
            instant_or_overflow(r, scaled_nanos(millis as int, 1_000_000)),
    {
        Self::try_from_scaled(millis, 1_000_000)
    }

    /// Builds an instant from Unix seconds; `Overflow` where the nanoseconds leave `i64`.
    pub fn try_from_unix_seconds(seconds: i64) -> (r: Result<Self, TimeError>)
        ensures
            instant_or_overflow(r, scaled_nanos(seconds as int, 1_000_000_000)),
    {
        Self::try_from_scaled(seconds, 1_000_000_000)
    }

    /// The instant `nanos` nanoseconds later; `Overflow` where it leaves `i64`.
    pub fn checked_add_nanos(self, nanos: u128) -> (r: Result<Self, TimeError>)
        ensures
            instant_or_overflow(r, shifted_nanos(self@, nanos as int)),
    {
        if nanos > i128::MAX as u128 {
            return Err(TimeError::Overflow);
        }
        let delta = nanos as i128;
        let sum = match (self.0 as i128).checked_add(delta) {
            Some(s) => s,
            None => return Err(TimeError::Overflow),
        };
        if sum < i64::MIN as i128 || sum > i64::MAX as i128 {
            return Err(TimeError::Overflow);
        }
        Ok(UnixTimeNs(sum as i64))
    }

    /// The instant `nanos` nanoseconds earlier; `Overflow` where it leaves `i64`.
    pub fn checked_sub_nanos(self, nanos: u128) -> (r: Result<Self, TimeError>)
        ensures
            instant_or_overflow(r, shifted_nanos(self@, -(nanos as int))),
    {
        if nanos > i128::MAX as u128 {
            return Err(TimeError::Overflow);
        }
        let delta = nanos as i128;
        let diff = match (self.0 as i128).checked_sub(delta) {
            Some(s) => s,
            None => return Err(TimeError::Overflow),
        };
        if diff < i64::MIN as i128 || diff > i64::MAX as i128 {
            return Err(TimeError::Overflow);
        }
        Ok(UnixTimeNs(diff as i64))
    }

    /// Checked addition of a duration (no wrapping).
    pub fn checked_add(self, duration: Duration) -> (r: Result<Self, TimeError>)
        ensures
            instant_or_overflow(r, shifted_nanos(self@, duration_nanos(duration) as int)),
    {
        let nanos = duration_as_nanos(&duration);
        self.checked_add_nanos(nanos)
    }

    /// Checked subtraction of a duration (no wrapping).
    pub fn checked_sub(self, duration: Duration) -> (r: Result<Self, TimeError>)
        ensures
            instant_or_overflow(r, shifted_nanos(self@, -(duration_nanos(duration) as int))),
    {
        let nanos = duration_as_nanos(&duration);
        self.checked_sub_nanos(nanos)
    }

    /// The time from `earlier` to `self`; `InvalidOrder` where `self` is before `earlier`
    /// (never saturated to zero).
    pub fn duration_since(self, earlier: Self) -> (r: Result<Duration, TimeError>)
        ensures
            match nanos_between(self@, earlier@) {
                Some(n) => r matches Ok(d) && duration_nanos(d) == n,
                None => r == Err::<Duration, TimeError>(
                    TimeError::InvalidOrder { later: self, earlier },
                ),
            },
    {
        if self.0 < earlier.0 {
            return Err(TimeError::InvalidOrder { later: self, earlier });
        }
        let diff = self.0 as i128 - earlier.0 as i128;
        if diff > u64::MAX as i128 {
            return Err(TimeError::Overflow);
        }
        Ok(duration_from_nanos(diff as u64))
    }

    /// The instant `nanos` nanoseconds after the epoch, as a `SystemTime` offset is read;
    /// `SystemTimeOutOfRange` where it leaves `i64`.
    pub fn try_from_epoch_nanos(nanos: u128) -> (r: Result<Self, TimeError>)
        ensures
            instant_or(r, in_i64(nanos as int), TimeError::SystemTimeOutOfRange),
    {
        if nanos > i64::MAX as u128 {
            return Err(TimeError::SystemTimeOutOfRange);
        }
        Ok(UnixTimeNs(nanos as i64))
    }

    /// Builds an instant from a `SystemTime`; `SystemTimeOutOfRange` before the epoch or
    /// beyond the range of `i64` nanoseconds.
    pub fn try_from_system_time(value: SystemTime) -> (r: Result<Self, TimeError>)
        ensures
            from_system_time_result(value, r),
    {
        match since_unix_epoch(&value) {
            Some(d) => {
                let nanos = duration_as_nanos(&d);
                Self::try_from_epoch_nanos(nanos)
            },
            None => Err(TimeError::SystemTimeOutOfRange),
        }
    }

    /// The time from the epoch to this instant, as a `Duration`; `None` for an instant
    /// before the epoch, which no `Duration` measures.
    pub fn epoch_duration(self) -> (d: Option<Duration>)
        ensures
            d is Some <==> self@ >= 0,
            d matches Some(x) ==> duration_nanos(x) == self@,
    {
        if self.0 < 0 {
            None
        } else {
            Some(duration_from_nanos(self.0 as u64))
        }
    }

    /// Converts to a `SystemTime`: the epoch plus [`UnixTimeNs::epoch_duration`].
    /// `SystemTimeOutOfRange` for an instant before the epoch, which `SystemTime` cannot
    /// hold, or beyond the platform's range. The result is not before the epoch and not
    /// after `self`; it is `self` exactly where the platform keeps nanoseconds, and
    /// truncated to the platform's precision elsewhere.
    pub fn try_into_system_time(self) -> (r: Result<SystemTime, TimeError>)
        ensures
            into_system_time_result(self, r),
    {
        match self.epoch_duration() {
            Some(d) => match unix_epoch_plus(d) {
                Some(t) => Ok(t),
                None => Err(TimeError::SystemTimeOutOfRange),
            },
            None => Err(TimeError::SystemTimeOutOfRange),
        }
    }
}

/// Two instants with the same nanoseconds are the same instant, so rebuilding an instant
/// from its own nanoseconds gives it back.
pub proof fn lemma_instant_determined_by_nanos(a: UnixTimeNs, b: UnixTimeNs)
    ensures
        a@ == b@ <==> a == b,
{
}

/// Adding a duration and then subtracting it gives back the instant, and so does
/// subtracting and then adding, wherever the first step did not overflow.
pub proof fn lemma_add_sub_inverse(t: i64, d: nat)
    ensures
        shifted_nanos(t, d as int) matches Some(later) ==> shifted_nanos(later, -(d as int))
            == Some(t),
        shifted_nanos(t, -(d as int)) matches Some(earlier) ==> shifted_nanos(earlier, d as int)
            == Some(t),
{
}

/// The time from an instant to the instant a duration later is that duration, and adding
/// the time between two ordered instants to the earlier one gives the later one.
pub proof fn lemma_since_undoes_add(t: i64, d: nat, later: i64, earlier: i64)
    ensures
        shifted_nanos(t, d as int) matches Some(u) ==> nanos_between(u, t) == Some(d),
        nanos_between(later, earlier) matches Some(n) ==> shifted_nanos(earlier, n as int)
            == Some(later),
{
}

/// Of two instants, the time between them is defined in exactly one direction unless they
/// are equal, where it is zero both ways.
pub proof fn lemma_since_order(a: i64, b: i64)
    ensures
        a < b ==> nanos_between(a, b) is None && nanos_between(b, a) is Some,
        a == b ==> nanos_between(a, b) == Some(0nat),
        (nanos_between(a, b) is Some && nanos_between(b, a) is Some) ==> a == b,
{
}

/// A `SystemTime` converted to an instant converts back: the way back succeeds, and gives a
/// `SystemTime` not before the epoch and not after the first (the same offset wherever
/// the platform keeps nanoseconds). No instant that came from a `SystemTime` is refused on
/// the way back.
pub proof fn lemma_system_time_converts_back(
    s: SystemTime,
    t: UnixTimeNs,
    back: Result<SystemTime, TimeError>,
)
    requires
        from_system_time_result(s, Ok(t)),
        into_system_time_result(t, back),
    ensures
        back matches Ok(s2) && 0 <= system_time_offset(s2) <= system_time_offset(s),
{
    assert(system_time_offset(s) >= t@);
    assert(system_time_reaches(t@ as int));
}

/// Converting an instant to a `SystemTime` fails, for an instant not before the epoch,
/// only where no `SystemTime` at all lies that far after the epoch: any `SystemTime` at or
/// after the instant proves that the conversion succeeds.
pub proof fn lemma_into_system_time_fails_only_beyond_range(
    t: UnixTimeNs,
    witness: SystemTime,
    r: Result<SystemTime, TimeError>,
)
    requires
        into_system_time_result(t, r),
        0 <= t@ <= system_time_offset(witness),
    ensures
        r is Ok,
{
    assert(system_time_reaches(t@ as int));
}

/// Converting an instant not before the epoch to a `SystemTime` and back never fails on
/// the way back and gives an instant not before the epoch and not after the first one (the
/// same one where the platform keeps nanoseconds): whatever `try_into_system_time`
/// returns satisfies the `requires`, and `try_from_system_time` of it is this outcome.
pub proof fn lemma_system_time_round_trip(t: UnixTimeNs, s: SystemTime)
    requires
        0 <= system_time_offset(s) <= t@,
    ensures
        system_time_offset(s) >= 0,
        in_i64(system_time_offset(s)) matches Some(v) && 0 <= v <= t@,
{
}

/// The unit constructors agree: `s` seconds, `1000 s` milliseconds and `1000000 s`
/// microseconds are the same instant (or the same overflow).
pub proof fn lemma_units_agree(seconds: int)
    ensures
        scaled_nanos(seconds, 1_000_000_000) == scaled_nanos(seconds * 1000, 1_000_000),
        scaled_nanos(seconds * 1000, 1_000_000) == scaled_nanos(seconds * 1_000_000, 1_000),
{
    assert(seconds * 1_000_000_000 == (seconds * 1000) * 1_000_000) by (nonlinear_arith);
    assert((seconds * 1000) * 1_000_000 == (seconds * 1_000_000) * 1_000) by (nonlinear_arith);
}

} // verus!

//! Clock abstractions and their system implementations.
//!
//! [`WallClock`] gives the absolute instant [`UnixTimeNs`]; [`MonotonicClock`] gives a
//! `std::time::Instant`, only for elapsed time, deadlines and timeouts inside the process.
//! Clocks are injected by the application or runtime; the domain holds none.

use std::time::{Instant, SystemTime};
use vstd::prelude::*;

use super::system::{instant_now, system_time_now};
use super::system::system_time_offset;
use super::unix_time::{
    from_system_time_result, into_system_time_result, lemma_system_time_converts_back, TimeError,
    UnixTimeNs,
};

verus! {

/// The wall clock: the current UTC POSIX epoch instant.
///
/// It may step backward (NTP or manual adjustment); callers must not assume it never
/// decreases.
pub trait WallClock: Send + Sync {
    /// The current wall clock time; a [`TimeError`] where the time source is unavailable
    /// or the time cannot be represented.
    fn now(&self) -> Result<UnixTimeNs, TimeError>;
}

/// The monotonic clock: a sample point inside the process.
///
/// Only for measuring intervals, deadlines and timeouts; its absolute value means nothing
/// and must not be persisted.
pub trait MonotonicClock: Send + Sync {
    /// The current monotonic sample point.
    fn now(&self) -> Instant;
}

/// A clock that is both a wall clock and a monotonic clock. The domain must not depend
/// on it.
pub trait RuntimeClock: WallClock + MonotonicClock {

}

impl<T: WallClock + MonotonicClock> RuntimeClock for T {

}

/// Whether `r` is what converting some `SystemTime` to an instant yields: a wall clock
/// reports the conversion of the time it read.
pub open spec fn wall_clock_reading(r: Result<UnixTimeNs, TimeError>) -> bool {
    exists|s: SystemTime| from_system_time_result(s, r)
}

/// A wall clock reading is a time that a `SystemTime` holds: a reported instant is the
/// exact offset from the epoch of some `SystemTime`, is not before the epoch, and always
/// converts back to a `SystemTime` (not after it, and the same one wherever the platform
/// keeps nanoseconds).
pub proof fn lemma_wall_clock_reads_a_system_time(
    r: Result<UnixTimeNs, TimeError>,
    t: UnixTimeNs,
    back: Result<SystemTime, TimeError>,
)
    requires
        wall_clock_reading(r),
        r == Ok::<UnixTimeNs, TimeError>(t),
        into_system_time_result(t, back),
    ensures
        exists|s: SystemTime| system_time_offset(s) == t@,
        t@ >= 0,
        back matches Ok(s2) && 0 <= system_time_offset(s2) <= t@,
{
    let s = choose|s: SystemTime| from_system_time_result(s, r);
    assert(system_time_offset(s) == t@);
    lemma_system_time_converts_back(s, t, back);
}

/// The system wall clock, based on `std::time` (the one production wall clock).
#[derive(Debug, Clone, Copy, Default)]
pub struct SystemWallClock;

impl SystemWallClock {
    /// Creates the system wall clock.
    pub fn new() -> (c: Self)
        ensures
            c == SystemWallClock,
    {
        SystemWallClock
    }
}

impl WallClock for SystemWallClock {
    /// Reads the system time and converts it: the result is what
    /// [`UnixTimeNs::try_from_system_time`] gives for the `SystemTime` read, so an error can
    /// only be `SystemTimeOutOfRange`, and an instant is never before the epoch.
    fn now(&self) -> (r: Result<UnixTimeNs, TimeError>)
        ensures
            wall_clock_reading(r),
            r matches Ok(t) ==> t@ >= 0,
            r is Err ==> r == Err::<UnixTimeNs, TimeError>(TimeError::SystemTimeOutOfRange),
    {
        UnixTimeNs::try_from_system_time(system_time_now())
    }
}

/// The system monotonic clock, based on `std::time::Instant`.
#[derive(Debug, Clone, Copy, Default)]
pub struct SystemMonotonicClock;

impl SystemMonotonicClock {
    /// Creates the system monotonic clock.
    pub fn new() -> (c: Self)
        ensures
            c == SystemMonotonicClock,
    {
        SystemMonotonicClock
    }
}

impl MonotonicClock for SystemMonotonicClock {
    fn now(&self) -> Instant {
        instant_now()
    }
}

} // verus!

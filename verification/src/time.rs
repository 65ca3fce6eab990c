//! The time model: the absolute instant [`UnixTimeNs`] with [`TimeError`], and the wall and
//! monotonic clock abstractions with their system implementations.

mod clock;
mod system;
mod unix_time;

pub use clock::{
    lemma_wall_clock_reads_a_system_time, wall_clock_reading, MonotonicClock, RuntimeClock,
    SystemMonotonicClock, SystemWallClock, WallClock,
};
pub use system::{duration_nanos, system_time_offset};
pub(crate) use system::instant_now;
pub use unix_time::{
    fits_i64, from_system_time_result, in_i64, instant_or, instant_or_overflow,
    into_system_time_result, lemma_add_sub_inverse, lemma_instant_determined_by_nanos,
    lemma_into_system_time_fails_only_beyond_range, lemma_since_order, lemma_since_undoes_add,
    lemma_system_time_converts_back, lemma_system_time_round_trip, lemma_units_agree,
    nanos_between, scaled_nanos, shifted_nanos, system_time_reaches, time_error_text,
    TimeError, UnixTimeNs,
};

//! `kernel`: the absolute-time value type of the system, its clocks, the classified error
//! type, the component lifecycle, and the pure precision contract for storing time.
//!
//! - [`time`]: the one absolute instant [`UnixTimeNs`], with wall and monotonic clocks kept
//!   apart and injected explicitly;
//! - [`error`]: errors classified by how a caller should react;
//! - [`lifecycle`]: component states and their legal, forward-only transitions;
//! - [`time_storage`]: the persistence precision contract, as pure functions without I/O.

mod decimal;
pub mod error;
pub mod lifecycle;
pub mod time;
pub mod time_storage;

pub use decimal::{decimal_digits, decimal_text, digit_char};
pub use error::{BoxError, ErrorKind, XError, XResult};
pub use lifecycle::{
    ComponentState, LifecycleError, ShutdownGuard, ShutdownSignal, WaitTimeoutError,
};
pub use time::{
    MonotonicClock, RuntimeClock, SystemMonotonicClock, SystemWallClock, TimeError, UnixTimeNs,
    WallClock,
};
pub use time_storage::{
    quantize_unix_ns, require_lossless_unix_ns, stored_to_unix_ns, unix_ns_to_stored,
    verify_pg_dual_column, PrecisionLossPolicy, TimePrecision, TimeStorageCapabilities,
};


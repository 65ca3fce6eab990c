# kernel

The absolute-time value type of the system, its clocks, a classified error type, the
component lifecycle with its shutdown signal, and the pure precision contract for storing
time, verified with Verus.

- `src/time/unix_time.rs`: `UnixTimeNs` (UTC POSIX epoch nanoseconds) and `TimeError`:
  checked unit constructors, checked arithmetic with `Duration`, ordered differences, and
  conversions to and from `SystemTime`, with the laws that tie them together. Every
  contract is exact except that of `try_into_system_time`: `SystemTime`'s precision and
  range depend on the platform (100 ns on Windows), so it states only that a result lies
  between the epoch and the instant, and that the duration it hands to
  `SystemTime::checked_add` is exactly `epoch_duration`.
- `src/time/clock.rs`: the `WallClock` / `MonotonicClock` abstractions and the system clocks.
- `src/time/system.rs`: the trusted boundary to `std::time`.
- `src/time_storage.rs`: storage precisions, the precision loss policy, and the
  conversions between Unix nanoseconds and storage units, with their laws.
- `src/error.rs`: `ErrorKind` and `XError`.
- `src/lifecycle.rs`: `ComponentState` and its legal transitions; `src/lifecycle/shutdown.rs`
  the shutdown signal, over trusted `Mutex` / `Condvar` calls.
- `src/decimal.rs`: decimal text of integers, for exact error descriptions.
- `app/`: `Display` / `std::error::Error` through `thiserror`, and `XFault`, an `XError`
  with a source chain (`dyn std::error::Error` cannot stand in the verified library).

//! Shutdown signalling: triggered once by its guard, observed by any number of signals,
//! never reset.
//!
//! The flag lives behind a `Mutex` with a `Condvar` for blocking waits. Those are reached
//! only through the trusted wrappers below, each of which makes one `std::sync` call; what
//! another thread does meanwhile is outside every contract here, so the wrappers promise
//! nothing about the flag they read.

use std::sync::{Arc, Condvar, Mutex};
use std::time::{Duration, Instant};
use vstd::prelude::*;

use crate::time::instant_now;

verus! {

#[verifier::external_type_specification]
#[verifier::external_body]
#[verifier::reject_recursive_types(T)]
pub struct ExMutex<T: ?Sized>(Mutex<T>);

#[verifier::external_type_specification]
#[verifier::external_body]
pub struct ExCondvar(Condvar);

/// A timed wait whose deadline cannot be represented.
#[derive(Debug, Clone, Copy, PartialEq, Eq, Structural, Hash)]
pub enum WaitTimeoutError {
    /// `now + timeout` overflows `Instant`; this is not reported as an ordinary timeout.
    DeadlineOverflow,
}

impl WaitTimeoutError {
    /// The human-readable description of this error.
    pub fn to_message(&self) -> (s: String)
        ensures
            s@ == "等待截止时间无法表示"@,
    {
        "等待截止时间无法表示".to_owned()
    }
}

struct Shared {
    triggered: Mutex<bool>,
    cond: Condvar,
}

/// The observer side of a shutdown: cheap to clone, sees the trigger once it happens.
#[derive(Clone)]
pub struct ShutdownSignal {
    shared: Arc<Shared>,
}

/// The one trigger of a shutdown; consumed by [`ShutdownGuard::trigger`], never cloned.
pub struct ShutdownGuard {
    shared: Arc<Shared>,
}

/// `Mutex::new`: a new mutex holding `value`.
#[verifier::external_body]
fn new_flag(value: bool) -> Mutex<bool> {
    Mutex::new(value)
}

/// `Condvar::new`: a new condition variable.
#[verifier::external_body]
fn new_condvar() -> Condvar {
    Condvar::new()
}

/// `Arc::clone`: another handle to the same shared value.
#[verifier::external_body]
fn share(shared: &Arc<Shared>) -> (r: Arc<Shared>)
    ensures
        r == *shared,
{
    Arc::clone(shared)
}

/// `Mutex::lock`, then a read of the flag (recovering a poisoned lock). Other threads may
/// change the flag at any time, so nothing is promised of the value read.
#[verifier::external_body]
fn flag_load(flag: &Mutex<bool>) -> bool {
    *flag.lock().unwrap_or_else(|e| e.into_inner())
}

/// `Mutex::lock`, then a store of `value` into the flag (recovering a poisoned lock).
#[verifier::external_body]
fn flag_store(flag: &Mutex<bool>, value: bool) {
    *flag.lock().unwrap_or_else(|e| e.into_inner()) = value;
}

/// `Condvar::notify_all`: wakes every thread waiting on `cond`.
#[verifier::external_body]
fn wake_all(cond: &Condvar) {
    cond.notify_all();
}

/// `Condvar::wait_while` on the locked flag: blocks while [`still_waiting`] holds of it.
#[verifier::external_body]
fn block_while_lowered(cond: &Condvar, flag: &Mutex<bool>) {
    let locked = flag.lock().unwrap_or_else(|e| e.into_inner());
    let _released = cond.wait_while(locked, |raised| still_waiting(raised));
}

/// `Condvar::wait_timeout_while` on the locked flag: blocks while [`still_waiting`] holds of
/// it, at most `timeout`, and returns the flag's value when it stops. Nothing is promised
/// of that value: another thread decides it.
#[verifier::external_body]
fn block_while_lowered_for(cond: &Condvar, flag: &Mutex<bool>, timeout: Duration) -> bool {
    let locked = flag.lock().unwrap_or_else(|e| e.into_inner());
    let waited = cond.wait_timeout_while(locked, timeout, |raised| still_waiting(raised));
    *waited.unwrap_or_else(|e| e.into_inner()).0
}

/// `Instant::checked_add`: `None` exactly where the sum cannot be represented; nothing is
/// promised of which sums those are, as that depends on the platform.
#[verifier::external_body]
fn instant_checked_add(now: Instant, timeout: Duration) -> Option<Instant> {
    now.checked_add(timeout)
}

/// Whether a waiter must keep waiting on a flag in state `raised`: exactly while it is
/// not raised.
fn still_waiting(raised: &mut bool) -> (b: bool)
    ensures
        b == !*old(raised),
        *final(raised) == *old(raised),
{
    !*raised
}

/// The outcome of a timed wait, from whether its deadline was representable and the flag
/// that the wait ended on: `DeadlineOverflow` where it was not, else whether the shutdown
/// was seen.
pub fn timed_wait_outcome(deadline_representable: bool, raised: bool) -> (r: Result<
    bool,
    WaitTimeoutError,
>)
    ensures
        !deadline_representable ==> r == Err::<bool, WaitTimeoutError>(
            WaitTimeoutError::DeadlineOverflow,
        ),
        deadline_representable ==> r == Ok::<bool, WaitTimeoutError>(raised),
{
    if deadline_representable {
        Ok(raised)
    } else {
        Err(WaitTimeoutError::DeadlineOverflow)
    }
}

impl ShutdownSignal {
    /// Creates an untriggered shutdown: its guard and a first signal, sharing one flag.
    pub fn new() -> (pair: (ShutdownGuard, ShutdownSignal))
        ensures
            pair.0.triggers(pair.1),
    {
        let shared = Arc::new(Shared { triggered: new_flag(false), cond: new_condvar() });
        let guard = ShutdownGuard { shared: share(&shared) };
        (guard, ShutdownSignal { shared })
    }

    /// Whether the shutdown has been triggered.
    pub fn is_triggered(&self) -> bool {
        flag_load(&self.shared.triggered)
    }

    /// Blocks until the shutdown is triggered.
    pub fn wait(&self) {
        block_while_lowered(&self.shared.cond, &self.shared.triggered)
    }

    /// Blocks until the shutdown is triggered or `timeout` passes; `Ok(true)` where it was
    /// triggered. A deadline that cannot be represented is `DeadlineOverflow`, never passed
    /// off as a timeout; that is the only error.
    pub fn wait_timeout(&self, timeout: Duration) -> (r: Result<bool, WaitTimeoutError>)
        ensures
            r is Err ==> r == Err::<bool, WaitTimeoutError>(WaitTimeoutError::DeadlineOverflow),
    {
        let deadline = instant_checked_add(instant_now(), timeout);
        match deadline {
            Some(_) => {
                let raised = block_while_lowered_for(
                    &self.shared.cond,
                    &self.shared.triggered,
                    timeout,
                );
                timed_wait_outcome(true, raised)
            },
            None => timed_wait_outcome(false, false),
        }
    }
}

impl ShutdownGuard {
    /// Whether this guard triggers the flag that `signal` observes.
    pub closed spec fn triggers(&self, signal: ShutdownSignal) -> bool {
        self.shared == signal.shared
    }

    /// Triggers the shutdown: raises the shared flag and wakes every waiting signal.
    pub fn trigger(self) {
        flag_store(&self.shared.triggered, true);
        wake_all(&self.shared.cond);
    }
}

} // verus!

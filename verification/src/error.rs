//! Error classification by how a caller should react, and the opaque error [`XError`].

use std::time::Duration;
use vstd::prelude::*;

use crate::time::{time_error_text, TimeError};

verus! {

/// A boxed error that can cross threads.
pub type BoxError = Box<dyn std::error::Error + Send + Sync + 'static>;

/// The result type of fallible kernel operations.
pub type XResult<T> = Result<T, XError>;

/// What a caller should do about an error.
#[derive(Debug, Clone, Copy, PartialEq, Eq, Structural, Hash)]
pub enum ErrorKind {
    /// The input is not acceptable; retrying the same input will not help.
    Invalid,
    /// Something that was asked for does not exist.
    Missing,
    /// The request conflicts with the current state.
    Conflict,
    /// A transient failure; retrying may succeed.
    Transient,
    /// A dependency or resource is not available.
    Unavailable,
    /// The operation was cancelled.
    Cancelled,
    /// The deadline passed.
    DeadlineExceeded,
    /// An invariant was broken: a bug.
    Invariant,
    /// An internal failure.
    Internal,
}

/// An opaque error: its kind, a human-readable context, and for a transient error an
/// optional delay after which a retry makes sense.
#[derive(Debug)]
pub struct XError {
    kind: ErrorKind,
    context: String,
    retry_after: Option<Duration>,
}

/// The kind into which a [`TimeError`] is classified: out-of-range conditions are
/// `Unavailable`, a wrong order is `Invalid`.
pub open spec fn time_error_kind(err: TimeError) -> ErrorKind {
    match err {
        TimeError::Overflow => ErrorKind::Unavailable,
        TimeError::InvalidOrder { .. } => ErrorKind::Invalid,
        TimeError::SystemTimeOutOfRange => ErrorKind::Unavailable,
    }
}

impl XError {
    /// The kind of this error.
    pub closed spec fn error_kind(&self) -> ErrorKind {
        self.kind
    }

    /// The context text of this error.
    pub closed spec fn message(&self) -> Seq<char> {
        self.context@
    }

    /// The delay after which a retry makes sense, where one was given.
    pub closed spec fn retry_delay(&self) -> Option<Duration> {
        self.retry_after
    }

    fn with_context(kind: ErrorKind, context: String) -> (e: Self)
        ensures
            e.error_kind() == kind,
            e.message() == context@,
            e.retry_delay() is None,
    {
        XError { kind, context, retry_after: None }
    }

    /// An `Invalid` error with the given context.
    pub fn invalid(context: &str) -> (e: Self)
        ensures
            e.error_kind() == ErrorKind::Invalid,
            e.message() == context@,
            e.retry_delay() is None,
    {
        Self::with_context(ErrorKind::Invalid, context.to_owned())
    }

    /// A `Missing` error with the given context.
    pub fn missing(context: &str) -> (e: Self)
        ensures
            e.error_kind() == ErrorKind::Missing,
            e.message() == context@,
            e.retry_delay() is None,
    {
        Self::with_context(ErrorKind::Missing, context.to_owned())
    }

    /// A `Conflict` error with the given context.
    pub fn conflict(context: &str) -> (e: Self)
        ensures
            e.error_kind() == ErrorKind::Conflict,
            e.message() == context@,
            e.retry_delay() is None,
    {
        Self::with_context(ErrorKind::Conflict, context.to_owned())
    }

    /// A `Transient` error with the given context and no suggested delay.
    pub fn transient(context: &str) -> (e: Self)
        ensures
            e.error_kind() == ErrorKind::Transient,
            e.message() == context@,
            e.retry_delay() is None,
    {
        Self::with_context(ErrorKind::Transient, context.to_owned())
    }

    /// A `Transient` error with the given context, worth retrying after `retry_after`.
    pub fn transient_after(context: &str, retry_after: Duration) -> (e: Self)
        ensures
            e.error_kind() == ErrorKind::Transient,
            e.message() == context@,
            e.retry_delay() == Some(retry_after),
    {
        XError {
            kind: ErrorKind::Transient,
            context: context.to_owned(),
            retry_after: Some(retry_after),
        }
    }

    /// An `Unavailable` error with the given context.
    pub fn unavailable(context: &str) -> (e: Self)
        ensures
            e.error_kind() == ErrorKind::Unavailable,
            e.message() == context@,
            e.retry_delay() is None,
    {
        Self::with_context(ErrorKind::Unavailable, context.to_owned())
    }

    /// A `Cancelled` error with the given context.
    pub fn cancelled(context: &str) -> (e: Self)
        ensures
            e.error_kind() == ErrorKind::Cancelled,
            e.message() == context@,
            e.retry_delay() is None,
    {
        Self::with_context(ErrorKind::Cancelled, context.to_owned())
    }

    /// A `DeadlineExceeded` error with the given context.
    pub fn deadline_exceeded(context: &str) -> (e: Self)
        ensures
            e.error_kind() == ErrorKind::DeadlineExceeded,
            e.message() == context@,
            e.retry_delay() is None,
    {
        Self::with_context(ErrorKind::DeadlineExceeded, context.to_owned())
    }

    /// An `Invariant` error (a bug) with the given context.
    pub fn invariant_violation(context: &str) -> (e: Self)
        ensures
            e.error_kind() == ErrorKind::Invariant,
            e.message() == context@,
            e.retry_delay() is None,
    {
        Self::with_context(ErrorKind::Invariant, context.to_owned())
    }

    /// An `Internal` error with the given context.
    pub fn internal(context: &str) -> (e: Self)
        ensures
            e.error_kind() == ErrorKind::Internal,
            e.message() == context@,
            e.retry_delay() is None,
    {
        Self::with_context(ErrorKind::Internal, context.to_owned())
    }

    /// The delay after which a retry makes sense, where one was given.
    pub fn retry_after(&self) -> (d: Option<Duration>)
        ensures
            d == self.retry_delay(),
    {
        self.retry_after
    }

    /// Whether retrying may succeed: true exactly for `Transient` errors.
    pub fn is_retryable(&self) -> (b: bool)
        ensures
            b == (self.error_kind() == ErrorKind::Transient),
    {
        matches!(self.kind, ErrorKind::Transient)
    }

    /// Whether this error reveals a bug: true exactly for `Invariant` errors.
    pub fn is_bug(&self) -> (b: bool)
        ensures
            b == (self.error_kind() == ErrorKind::Invariant),
    {
        matches!(self.kind, ErrorKind::Invariant)
    }

    /// An `Invalid` error whose context is the given owned text.
    pub(crate) fn invalid_owned(context: String) -> (e: Self)
        ensures
            e.error_kind() == ErrorKind::Invalid,
            e.message() == context@,
            e.retry_delay() is None,
    {
        Self::with_context(ErrorKind::Invalid, context)
    }

    /// The kind of this error.
    pub fn kind(&self) -> (k: ErrorKind)
        ensures
            k == self.error_kind(),
    {
        self.kind
    }

    /// The context text of this error.
    pub fn context(&self) -> (c: &str)
        ensures
            c@ == self.message(),
    {
        self.context.as_str()
    }

    /// Classifies a [`TimeError`]: `Overflow` and `SystemTimeOutOfRange` become
    /// `Unavailable`, `InvalidOrder` becomes `Invalid`; the context is the time error's
    /// description, never empty.
    pub fn from_time_error(err: TimeError) -> (e: Self)
        ensures
            e.error_kind() == time_error_kind(err),
            e.retry_delay() is None,
            e.message() == time_error_text(err),
            e.message().len() > 0,
    {
        let context = err.to_message();
        let kind = match err {
            TimeError::InvalidOrder { .. } => ErrorKind::Invalid,
            _ => ErrorKind::Unavailable,
        };
        Self::with_context(kind, context)
    }
}

impl From<TimeError> for XError {
    /// Classifies a [`TimeError`] as [`XError::from_time_error`] does.
    fn from(err: TimeError) -> (e: Self)
        ensures
            e.error_kind() == time_error_kind(err),
            e.message() == time_error_text(err),
            e.retry_delay() is None,
    {
        XError::from_time_error(err)
    }
}

impl vstd::std_specs::convert::FromSpecImpl<TimeError> for XError {
    /// `XError` holds a `String`, which no spec expression builds, so the generic `From`
    /// specification does not describe it; the contract of `from` above does.
    open spec fn obeys_from_spec() -> bool {
        false
    }

    open spec fn from_spec(v: TimeError) -> XError {
        choose|e: XError| e.error_kind() == time_error_kind(v) && e.message() == time_error_text(v)
    }
}

} // verus!

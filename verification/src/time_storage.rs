//! The persistence precision contract for time.
//!
//! Pure types and functions only: a storage adapter declares its precision and its
//! precision loss policy, and Unix nanoseconds are converted to and from the storage unit
//! under that policy. No I/O, no connections.
//!
//! The default policy is [`PrecisionLossPolicy::Reject`]: nanoseconds are never truncated
//! silently.

use vstd::prelude::*;

use crate::decimal::{decimal_text, push_decimal};
use crate::error::{ErrorKind, XError, XResult};
use crate::time::{in_i64, scaled_nanos};

verus! {

/// The time precision that a storage backend can declare.
#[non_exhaustive]
#[derive(Debug, Clone, Copy, PartialEq, Eq, Structural, Hash)]
pub enum TimePrecision {
    /// Seconds.
    Seconds,
    /// Milliseconds.
    Milliseconds,
    /// Microseconds.
    Microseconds,
    /// Nanoseconds (full Unix nanoseconds).
    Nanoseconds,
}

impl TimePrecision {
    /// The number of nanoseconds in one unit of this precision.
    pub open spec fn scale(self) -> i64 {
        match self {
            TimePrecision::Seconds => 1_000_000_000,
            TimePrecision::Milliseconds => 1_000_000,
            TimePrecision::Microseconds => 1_000,
            TimePrecision::Nanoseconds => 1,
        }
    }

    /// The number of nanoseconds in one unit of this precision.
    pub fn nanos_per_unit(self) -> (n: i64)
        ensures
            n == self.scale(),
    {
        match self {
            TimePrecision::Seconds => 1_000_000_000,
            TimePrecision::Milliseconds => 1_000_000,
            TimePrecision::Microseconds => 1_000,
            TimePrecision::Nanoseconds => 1,
        }
    }

    /// Whether this precision holds full Unix nanoseconds without loss.
    pub fn is_lossless_unix_ns(self) -> (b: bool)
        ensures
            b == (self == TimePrecision::Nanoseconds),
    {
        matches!(self, TimePrecision::Nanoseconds)
    }
}

/// The time storage capabilities that an adapter must declare.
#[derive(Debug, Clone, Copy, PartialEq, Eq, Structural, Hash)]
pub struct TimeStorageCapabilities {
    /// The precision that the backend's native time column guarantees.
    pub stored_precision: TimePrecision,
    /// Whether writes and reads are normalized to UTC (no local time zone ambiguity).
    pub utc_normalized: bool,
    /// Whether full `i64` Unix nanoseconds round-trip without loss.
    pub lossless_unix_ns: bool,
}

impl TimeStorageCapabilities {
    /// Builds a capability declaration.
    pub fn new(
        stored_precision: TimePrecision,
        utc_normalized: bool,
        lossless_unix_ns: bool,
    ) -> (caps: Self)
        ensures
            caps.stored_precision == stored_precision,
            caps.utc_normalized == utc_normalized,
            caps.lossless_unix_ns == lossless_unix_ns,
    {
        TimeStorageCapabilities { stored_precision, utc_normalized, lossless_unix_ns }
    }
}

/// What to do when a value cannot be stored at the target precision without loss.
#[non_exhaustive]
#[derive(Debug, Clone, Copy, PartialEq, Eq, Structural, Hash)]
pub enum PrecisionLossPolicy {
    /// Return an error where the value cannot be represented without loss (the default).
    Reject,
    /// The caller explicitly allows truncation to the storage precision (toward zero).
    ExplicitTruncate,
}

impl Default for PrecisionLossPolicy {
    /// The default policy is `Reject`.
    fn default() -> (p: Self)
        ensures
            p == PrecisionLossPolicy::Reject,
    {
        PrecisionLossPolicy::Reject
    }
}

/// Integer division rounded toward zero, as Rust's `/` on signed integers.
pub open spec fn div_toward_zero(a: int, b: int) -> int {
    if a >= 0 {
        a / b
    } else {
        -((-a) / b)
    }
}

/// The storage-unit value of `unix_ns` at precision `target` under `policy`, or `None`
/// where the policy rejects the loss of precision.
pub open spec fn stored_value(
    unix_ns: i64,
    target: TimePrecision,
    policy: PrecisionLossPolicy,
) -> Option<i64> {
    let scale = target.scale() as int;
    if scale == 1 {
        Some(unix_ns)
    } else if (unix_ns as int) % scale != 0 && policy == PrecisionLossPolicy::Reject {
        None
    } else {
        Some(div_toward_zero(unix_ns as int, scale) as i64)
    }
}

/// The Unix nanoseconds of the storage-unit value `stored` at precision `source`, or
/// `None` where they leave `i64`.
pub open spec fn restored_value(stored: i64, source: TimePrecision) -> Option<i64> {
    in_i64(stored * source.scale())
}

/// `unix_ns` quantized to `target` under `policy` and restored to nanoseconds, or `None`
/// where the policy rejects the loss of precision.
pub open spec fn quantized_value(
    unix_ns: i64,
    target: TimePrecision,
    policy: PrecisionLossPolicy,
) -> Option<i64> {
    match stored_value(unix_ns, target, policy) {
        Some(s) => restored_value(s, target),
        None => None,
    }
}

/// Whether `e` is an `Invalid` error whose context is `text`.
pub open spec fn invalid_with_message(e: XError, text: Seq<char>) -> bool {
    &&& e.error_kind() == ErrorKind::Invalid
    &&& e.message() == text
}

/// The context of a rejected loss of precision.
pub open spec fn precision_loss_message(unix_ns: i64, target: TimePrecision) -> Seq<char> {
    "时间精度损失被拒绝：unix_ns="@ + decimal_text(unix_ns as int) + " 无法无损落入 "@
        + precision_name_text(target) + "（scale="@ + decimal_text(target.scale() as int)
        + "）"@
}

/// The context of a restoration whose product leaves `i64`.
pub open spec fn restore_overflow_message(stored: i64, source: TimePrecision) -> Seq<char> {
    "存储时间乘 scale="@ + decimal_text(source.scale() as int) + " 溢出：stored="@
        + decimal_text(stored as int)
}

/// The context of a refused required-lossless profile.
pub open spec fn lossless_required_message(caps: TimeStorageCapabilities) -> Seq<char> {
    "required-lossless profile 被拒绝：stored_precision="@ + precision_name_text(
        caps.stored_precision,
    ) + ", lossless_unix_ns=false"@
}

/// The context of an inconsistent PostgreSQL dual column, with both projections.
pub open spec fn dual_column_message(
    event_time_ns: i64,
    expected_proj: i64,
    actual_proj: i64,
) -> Seq<char> {
    "PostgreSQL 双列不一致：event_time_ns="@ + decimal_text(event_time_ns as int) + " 投影="@
        + decimal_text(expected_proj as int) + "，event_time_utc 投影="@ + decimal_text(
        actual_proj as int,
    )
}

/// The name of a precision, as it appears in error contexts.
pub open spec fn precision_name_text(p: TimePrecision) -> Seq<char> {
    match p {
        TimePrecision::Seconds => "Seconds"@,
        TimePrecision::Milliseconds => "Milliseconds"@,
        TimePrecision::Microseconds => "Microseconds"@,
        TimePrecision::Nanoseconds => "Nanoseconds"@,
    }
}

fn precision_name(p: TimePrecision) -> (s: &'static str)
    ensures
        s@ == precision_name_text(p),
{
    match p {
        TimePrecision::Seconds => "Seconds",
        TimePrecision::Milliseconds => "Milliseconds",
        TimePrecision::Microseconds => "Microseconds",
        TimePrecision::Nanoseconds => "Nanoseconds",
    }
}

/// Converts Unix nanoseconds to the storage unit of `target`.
///
/// Under [`PrecisionLossPolicy::Reject`] a remainder below the target precision is an
/// `Invalid` error; under [`PrecisionLossPolicy::ExplicitTruncate`] the value is truncated
/// toward zero.
pub fn unix_ns_to_stored(
    unix_ns: i64,
    target: TimePrecision,
    policy: PrecisionLossPolicy,
) -> (r: XResult<i64>)
    ensures
        match stored_value(unix_ns, target, policy) {
            Some(v) => r matches Ok(s) && s == v,
            None => r matches Err(e) && invalid_with_message(
                e,
                precision_loss_message(unix_ns, target),
            ),
        },
{
    let scale = target.nanos_per_unit();
    if scale == 1 {
        return Ok(unix_ns);
    }
    let remainder = unix_ns % scale;
    if remainder != 0 {
        match policy {
            PrecisionLossPolicy::Reject => {
                assert((unix_ns as int) % (scale as int) != 0);
                let mut msg = "时间精度损失被拒绝：unix_ns=".to_owned();
                push_decimal(&mut msg, unix_ns);
                msg.append(" 无法无损落入 ");
                msg.append(precision_name(target));
                msg.append("（scale=");
                push_decimal(&mut msg, scale);
                msg.append("）");
                assert(msg@ =~= precision_loss_message(unix_ns, target));
                return Err(XError::invalid_owned(msg));
            },
            PrecisionLossPolicy::ExplicitTruncate => {},
        }
    }
    Ok(unix_ns / scale)
}

/// Rounding toward zero never moves a value away from zero: the truncated multiple of `b`
/// lies between 0 and `a`, less than `b` away from `a`.
pub proof fn lemma_truncation_toward_zero(a: int, b: int)
    requires
        b > 0,
    ensures
        a >= 0 ==> 0 <= div_toward_zero(a, b) * b <= a,
        a < 0 ==> a <= div_toward_zero(a, b) * b <= 0,
        a - b < div_toward_zero(a, b) * b < a + b,
        a % b == 0 ==> div_toward_zero(a, b) * b == a,
{
    if a >= 0 {
        assert(0 <= (a / b) * b <= a && a - b < (a / b) * b) by (nonlinear_arith)
            requires
                a >= 0,
                b > 0,
        {
            vstd::arithmetic::div_mod::lemma_fundamental_div_mod(a, b);
            vstd::arithmetic::div_mod::lemma_mod_bound(a, b);
        }
        vstd::arithmetic::div_mod::lemma_fundamental_div_mod(a, b);
        vstd::arithmetic::mul::lemma_mul_is_commutative(b, a / b);
    } else {
        let c = -a;
        assert(0 <= (c / b) * b <= c && c - b < (c / b) * b) by (nonlinear_arith)
            requires
                c > 0,
                b > 0,
        {
            vstd::arithmetic::div_mod::lemma_fundamental_div_mod(c, b);
            vstd::arithmetic::div_mod::lemma_mod_bound(c, b);
        }
        assert(-(c / b) * b == -((c / b) * b)) by (nonlinear_arith);
        if a % b == 0 {
            vstd::arithmetic::div_mod::lemma_fundamental_div_mod(a, b);
            vstd::arithmetic::div_mod::lemma_fundamental_div_mod(c, b);
            vstd::arithmetic::div_mod::lemma_mod_bound(c, b);
            assert(c % b == 0) by (nonlinear_arith)
                requires
                    a == b * (a / b),
                    c == -a,
                    c == b * (c / b) + c % b,
                    0 <= c % b < b,
                    b > 0,
            {
                assert(c == b * (-(a / b)));
                assert(c % b == b * (-(a / b) - c / b));
            }
            assert(c / b * b == c) by (nonlinear_arith)
                requires
                    c == b * (c / b) + c % b,
                    c % b == 0,
            ;
        }
    }
}

/// A value that `Reject` accepts round-trips through storage unchanged.
pub proof fn lemma_reject_round_trip(unix_ns: i64, p: TimePrecision)
    ensures
        stored_value(unix_ns, p, PrecisionLossPolicy::Reject) matches Some(s) ==> restored_value(
            s,
            p,
        ) == Some(unix_ns),
        quantized_value(unix_ns, p, PrecisionLossPolicy::Reject) matches Some(q) ==> q == unix_ns,
{
    if p.scale() != 1 {
        lemma_truncation_toward_zero(unix_ns as int, p.scale() as int);
    }
}

/// `Reject` refuses exactly the values with a remainder below the precision, and where it
/// accepts a value it stores what `ExplicitTruncate` stores; `ExplicitTruncate` always
/// accepts.
pub proof fn lemma_policies_agree_when_aligned(unix_ns: i64, p: TimePrecision)
    ensures
        stored_value(unix_ns, p, PrecisionLossPolicy::Reject) is None <==> (unix_ns as int)
            % (p.scale() as int) != 0,
        stored_value(unix_ns, p, PrecisionLossPolicy::Reject) is Some ==> stored_value(
            unix_ns,
            p,
            PrecisionLossPolicy::Reject,
        ) == stored_value(unix_ns, p, PrecisionLossPolicy::ExplicitTruncate),
        stored_value(unix_ns, p, PrecisionLossPolicy::ExplicitTruncate) is Some,
{
    if p.scale() == 1 {
        assert((unix_ns as int) % 1 == 0);
    }
}

/// Explicit truncation goes toward zero: the quantized value always exists, lies between
/// zero and the given value, and is less than one unit of precision away from it.
pub proof fn lemma_truncate_toward_zero(unix_ns: i64, p: TimePrecision)
    ensures
        quantized_value(unix_ns, p, PrecisionLossPolicy::ExplicitTruncate) matches Some(q) && {
            &&& unix_ns >= 0 ==> 0 <= q <= unix_ns
            &&& unix_ns < 0 ==> unix_ns <= q <= 0
            &&& unix_ns - p.scale() < q < unix_ns + p.scale()
            &&& (q as int) % (p.scale() as int) == 0
        },
{
    let scale = p.scale() as int;
    if scale != 1 {
        lemma_truncation_toward_zero(unix_ns as int, scale);
        let k = div_toward_zero(unix_ns as int, scale);
        vstd::arithmetic::div_mod::lemma_mod_multiples_basic(k, scale);
    } else {
        assert((unix_ns as int) % 1 == 0);
    }
}

/// Quantizing is idempotent: a quantized value is already at the precision, so
/// quantizing it again, under either policy, gives it back.
pub proof fn lemma_quantize_idempotent(
    unix_ns: i64,
    p: TimePrecision,
    policy: PrecisionLossPolicy,
    again: PrecisionLossPolicy,
)
    ensures
        quantized_value(unix_ns, p, policy) matches Some(q) ==> quantized_value(q, p, again)
            == Some(q),
{
    let scale = p.scale() as int;
    if let Some(q) = quantized_value(unix_ns, p, policy) {
        if scale != 1 {
            lemma_truncation_toward_zero(unix_ns as int, scale);
            let k = div_toward_zero(unix_ns as int, scale);
            vstd::arithmetic::div_mod::lemma_mod_multiples_basic(k, scale);
            assert(q == k * scale);
            lemma_truncation_toward_zero(q as int, scale);
            assert(div_toward_zero(q as int, scale) == k) by {
                if k >= 0 {
                    vstd::arithmetic::div_mod::lemma_div_multiples_vanish(k, scale);
                    vstd::arithmetic::mul::lemma_mul_is_commutative(k, scale);
                } else {
                    vstd::arithmetic::div_mod::lemma_div_multiples_vanish(-k, scale);
                    vstd::arithmetic::mul::lemma_mul_is_commutative(-k, scale);
                    assert(-(q as int) == (-k) * scale) by (nonlinear_arith)
                        requires
                            q == k * scale,
                    ;
                }
            }
        }
    }
}

/// Nanosecond precision is lossless: any value is stored as itself under either policy and
/// restores as itself; it is the one precision with a unit of one nanosecond.
pub proof fn lemma_nanoseconds_lossless(unix_ns: i64, policy: PrecisionLossPolicy, p: TimePrecision)
    ensures
        stored_value(unix_ns, TimePrecision::Nanoseconds, policy) == Some(unix_ns),
        restored_value(unix_ns, TimePrecision::Nanoseconds) == Some(unix_ns),
        quantized_value(unix_ns, TimePrecision::Nanoseconds, policy) == Some(unix_ns),
        p.scale() == 1 <==> p == TimePrecision::Nanoseconds,
{
}

/// A nanosecond column and its own microsecond projection always pass the dual-column
/// check: the projection of the projection is the projection.
pub proof fn lemma_dual_column_accepts_projection(event_time_ns: i64)
    ensures
        quantized_value(
            event_time_ns,
            TimePrecision::Microseconds,
            PrecisionLossPolicy::ExplicitTruncate,
        ) matches Some(q) && quantized_value(
            q,
            TimePrecision::Microseconds,
            PrecisionLossPolicy::ExplicitTruncate,
        ) == quantized_value(
            event_time_ns,
            TimePrecision::Microseconds,
            PrecisionLossPolicy::ExplicitTruncate,
        ),
{
    lemma_truncate_toward_zero(event_time_ns, TimePrecision::Microseconds);
    lemma_quantize_idempotent(
        event_time_ns,
        TimePrecision::Microseconds,
        PrecisionLossPolicy::ExplicitTruncate,
        PrecisionLossPolicy::ExplicitTruncate,
    );
}

/// Building an instant from milliseconds and restoring a millisecond column give the same
/// nanoseconds, and both overflow on the same values; likewise for seconds and
/// microseconds.
pub proof fn lemma_unit_constructors_match_storage(count: i64)
    ensures
        scaled_nanos(count as int, 1_000_000_000) == restored_value(count, TimePrecision::Seconds),
        scaled_nanos(count as int, 1_000_000) == restored_value(
            count,
            TimePrecision::Milliseconds,
        ),
        scaled_nanos(count as int, 1_000) == restored_value(count, TimePrecision::Microseconds),
{
}

/// A stored value that the policy accepted restores to nanoseconds without overflow.
proof fn lemma_stored_restores(unix_ns: i64, target: TimePrecision, policy: PrecisionLossPolicy)
    requires
        stored_value(unix_ns, target, policy) is Some,
    ensures
        restored_value(stored_value(unix_ns, target, policy)->0, target) is Some,
{
    let scale = target.scale() as int;
    if scale != 1 {
        lemma_truncation_toward_zero(unix_ns as int, scale);
    }
}

/// Restores a storage-unit value of precision `source` to Unix nanoseconds (exact
/// multiplication; `Invalid` where the product leaves `i64`).
pub fn stored_to_unix_ns(stored: i64, source: TimePrecision) -> (r: XResult<i64>)
    ensures
        match restored_value(stored, source) {
            Some(v) => r matches Ok(n) && n == v,
            None => r matches Err(e) && invalid_with_message(
                e,
                restore_overflow_message(stored, source),
            ),
        },
{
    let scale = source.nanos_per_unit();
    if scale == 1 {
        return Ok(stored);
    }
    match stored.checked_mul(scale) {
        Some(n) => Ok(n),
        None => {
            let mut msg = "存储时间乘 scale=".to_owned();
            push_decimal(&mut msg, scale);
            msg.append(" 溢出：stored=");
            push_decimal(&mut msg, stored);
            assert(msg@ =~= restore_overflow_message(stored, source));
            Err(XError::invalid_owned(msg))
        },
    }
}

/// Quantizes Unix nanoseconds to `target` under `policy` and restores them to nanoseconds
/// (the round trip through storage).
pub fn quantize_unix_ns(
    unix_ns: i64,
    target: TimePrecision,
    policy: PrecisionLossPolicy,
) -> (r: XResult<i64>)
    ensures
        match quantized_value(unix_ns, target, policy) {
            Some(v) => r matches Ok(n) && n == v,
            None => r matches Err(e) && invalid_with_message(
                e,
                precision_loss_message(unix_ns, target),
            ),
        },
{
    let stored = unix_ns_to_stored(unix_ns, target, policy)?;
    proof {
        lemma_stored_restores(unix_ns, target, policy);
    }
    stored_to_unix_ns(stored, target)
}

/// The `required-lossless` profile: the backend must hold Unix nanoseconds without loss;
/// `Invalid` where it cannot.
pub fn require_lossless_unix_ns(caps: TimeStorageCapabilities) -> (r: XResult<()>)
    ensures
        r is Ok <==> caps.lossless_unix_ns,
        r matches Err(e) ==> invalid_with_message(e, lossless_required_message(caps)),
{
    if caps.lossless_unix_ns {
        Ok(())
    } else {
        let mut msg = "required-lossless profile 被拒绝：stored_precision=".to_owned();
        msg.append(precision_name(caps.stored_precision));
        msg.append(", lossless_unix_ns=false");
        assert(msg@ =~= lossless_required_message(caps));
        Err(XError::invalid_owned(msg))
    }
}

/// PostgreSQL dual-column consistency: `event_time_ns` (the BIGINT source of truth) and the
/// `event_time_utc` TIMESTAMPTZ projection (read back as nanoseconds in
/// `timestamptz_as_unix_ns`) must agree at microsecond precision, the native precision of
/// `timestamptz`, both truncated toward zero; `Invalid` where they do not.
pub fn verify_pg_dual_column(event_time_ns: i64, timestamptz_as_unix_ns: i64) -> (r: XResult<()>)
    ensures
        r is Ok <==> quantized_value(
            event_time_ns,
            TimePrecision::Microseconds,
            PrecisionLossPolicy::ExplicitTruncate,
        ) == quantized_value(
            timestamptz_as_unix_ns,
            TimePrecision::Microseconds,
            PrecisionLossPolicy::ExplicitTruncate,
        ),
        r matches Err(e) ==> invalid_with_message(
            e,
            dual_column_message(
                event_time_ns,
                quantized_value(
                    event_time_ns,
                    TimePrecision::Microseconds,
                    PrecisionLossPolicy::ExplicitTruncate,
                )->0,
                quantized_value(
                    timestamptz_as_unix_ns,
                    TimePrecision::Microseconds,
                    PrecisionLossPolicy::ExplicitTruncate,
                )->0,
            ),
        ),
{
    let pg_prec = TimePrecision::Microseconds;
    proof {
        lemma_stored_restores(event_time_ns, pg_prec, PrecisionLossPolicy::ExplicitTruncate);
        lemma_stored_restores(
            timestamptz_as_unix_ns,
            pg_prec,
            PrecisionLossPolicy::ExplicitTruncate,
        );
    }
    let expected_proj = quantize_unix_ns(
        event_time_ns,
        pg_prec,
        PrecisionLossPolicy::ExplicitTruncate,
    )?;
    let actual_proj = quantize_unix_ns(
        timestamptz_as_unix_ns,
        pg_prec,
        PrecisionLossPolicy::ExplicitTruncate,
    )?;
    if expected_proj != actual_proj {
        let mut msg = "PostgreSQL 双列不一致：event_time_ns=".to_owned();
        push_decimal(&mut msg, event_time_ns);
        msg.append(" 投影=");
        push_decimal(&mut msg, expected_proj);
        msg.append("，event_time_utc 投影=");
        push_decimal(&mut msg, actual_proj);
        assert(msg@ =~= dual_column_message(event_time_ns, expected_proj, actual_proj));
        return Err(XError::invalid_owned(msg));
    }
    Ok(())
}

} // verus!

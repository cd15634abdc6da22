//! The boundary to the host's monotonic clock and to `std`'s duration type.
//!
//! The functions marked `external_body` are taken on trust: each calls one
//! function of `std` and states what `std` documents of it. The rest of the
//! crate handles time as plain nanosecond counts and never looks inside an
//! `Instant` or a `Duration`.

use std::time::Duration;
use std::time::Instant;
use vstd::prelude::*;

verus! {

/// The longest span a `Duration` can hold, in nanoseconds: `u64::MAX` whole
/// seconds and a fraction one nanosecond short of a second.
pub const MAX_SPAN_NANOS: u128 = 18_446_744_073_709_551_615_999_999_999;

/// Nanoseconds in one second.
pub const NANOS_PER_SEC: u128 = 1_000_000_000;

/// Nanoseconds in one millisecond.
pub const NANOS_PER_MILLI: u128 = 1_000_000;

/// `std::time::Instant`, a reading of the monotonic clock. The crate carries
/// such a value around as the point its nanosecond counts start from and
/// never inspects it.
#[verifier::external_type_specification]
#[verifier::external_body]
pub struct ExInstant(std::time::Instant);

/// The total number of nanoseconds in a span, as `Duration::as_nanos`
/// reports it.
pub uninterp spec fn span_nanos(span: Duration) -> nat;

/// Calls `std::time::Instant::now`. The reading depends on the moment of
/// the call, so nothing is claimed of it.
#[verifier::external_body]
pub(crate) fn clock_start() -> Instant {
    Instant::now()
}

/// Calls `std::time::Instant::elapsed`: the time that has passed on the
/// monotonic clock since `origin` was read. The result depends on the moment
/// of the call, so nothing is claimed of it.
#[verifier::external_body]
pub(crate) fn clock_elapsed(origin: &Instant) -> Duration {
    origin.elapsed()
}

/// Calls `std::time::Duration::as_nanos`. Claims that the result is the
/// span's nanosecond count, and that it does not exceed that of
/// `Duration::MAX`, which `std` documents as `u64::MAX` seconds and
/// 999,999,999 nanoseconds.
#[verifier::external_body]
pub(crate) fn nanos_in(span: &Duration) -> (nanos: u128)
    ensures
        nanos == span_nanos(*span),
        nanos <= MAX_SPAN_NANOS,
{
    span.as_nanos()
}

/// Calls `std::time::Duration::new`. Claims that the new span holds `secs`
/// whole seconds and `subsec_nanos` further nanoseconds. `Duration::new`
/// carries a fraction of a second or more over into the seconds and panics
/// when that overflows; the precondition keeps the fraction below a second,
/// so nothing is carried.
#[verifier::external_body]
pub(crate) fn span_of(secs: u64, subsec_nanos: u32) -> (span: Duration)
    requires
        subsec_nanos < NANOS_PER_SEC,
    ensures
        span_nanos(span) == secs * NANOS_PER_SEC + subsec_nanos,
{
    Duration::new(secs, subsec_nanos)
}

/// The span of `nanos` nanoseconds, where a `Duration` can hold it.
pub fn span_from_nanos(nanos: u128) -> (span: Option<Duration>)
    ensures
        span.is_some() <==> nanos <= MAX_SPAN_NANOS,
        span matches Some(s) ==> span_nanos(s) == nanos,
{
    if nanos <= MAX_SPAN_NANOS {
        let secs: u128 = nanos / NANOS_PER_SEC;
        let subsec: u128 = nanos % NANOS_PER_SEC;
        Some(span_of(secs as u64, subsec as u32))
    } else {
        None
    }
}

} // verus!

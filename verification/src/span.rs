//! Spans of time as whole nanoseconds.

use crate::backoff::capped;
use crate::backoff::LONGEST_WAIT;
use std::time::Duration;
use vstd::prelude::*;

verus! {

/// What a span of time holds: its total number of nanoseconds.
pub uninterp spec fn span_nanos(span: Duration) -> nat;

/// `Duration::as_nanos` returns the total number of nanoseconds that the span
/// holds; the contract gives that number the name `span_nanos`.
pub assume_specification[ Duration::as_nanos ](span: &Duration) -> (nanos: u128)
    ensures
        nanos == span_nanos(*span),
;

/// `Duration::from_nanos` makes the span that holds the given number of
/// nanoseconds.
pub assume_specification[ Duration::from_nanos ](nanos: u64) -> (span: Duration)
    ensures
        span_nanos(span) == nanos,
;

/// The nanoseconds of a span, held to the longest wait.
pub fn nanos_of(span: Duration) -> (nanos: u64)
    ensures
        nanos == capped(span_nanos(span)),
{
    let total: u128 = span.as_nanos();
    if total > LONGEST_WAIT as u128 {
        LONGEST_WAIT
    } else {
        total as u64
    }
}

/// The span of a number of nanoseconds.
pub fn span_of(nanos: u64) -> (span: Duration)
    ensures
        span_nanos(span) == nanos,
{
    Duration::from_nanos(nanos)
}

} // verus!

//! Lengths of time, counted in whole nanoseconds.

use vstd::prelude::*;

verus! {

/// Nanoseconds in one second.
pub const NANOS_PER_SECOND: u128 = 1_000_000_000;

/// Nanoseconds in one millisecond.
pub const NANOS_PER_MILLISECOND: u128 = 1_000_000;

/// The longest representable span: `u64::MAX` seconds and 999999999 nanoseconds.
pub const MAX_SPAN_NANOS: u128 = 18_446_744_073_709_551_615_999_999_999;

/// A non-negative length of time.
#[derive(Clone, Copy, Debug, PartialEq, Eq, Structural, Hash)]
pub struct Span {
    pub nanos: u128,
}

impl Span {
    /// Whether the span is one that the clock can express.
    pub open spec fn valid(self) -> bool {
        self.nanos <= MAX_SPAN_NANOS
    }

    /// The empty span.
    pub fn zero() -> (r: Span)
        ensures
            r.nanos == 0,
            r.valid(),
    {
        Span { nanos: 0 }
    }

    pub fn from_secs(secs: u64) -> (r: Span)
        ensures
            r.nanos == secs * NANOS_PER_SECOND,
            r.valid(),
    {
        Span { nanos: secs as u128 * NANOS_PER_SECOND }
    }

    pub fn from_millis(millis: u64) -> (r: Span)
        ensures
            r.nanos == millis * NANOS_PER_MILLISECOND,
            r.valid(),
    {
        Span { nanos: millis as u128 * NANOS_PER_MILLISECOND }
    }

    /// The sum, held at the longest span.
    pub fn saturating_add(self, other: Span) -> (r: Span)
        ensures
            r == span_sum(self, other),
            r.valid(),
    {
        let sum: u128 = self.nanos.saturating_add(other.nanos);
        if sum <= MAX_SPAN_NANOS {
            Span { nanos: sum }
        } else {
            Span { nanos: MAX_SPAN_NANOS }
        }
    }

    /// The difference, held at zero.
    pub fn saturating_sub(self, other: Span) -> (r: Span)
        ensures
            r.nanos == if self.nanos >= other.nanos { self.nanos - other.nanos } else { 0 },
            self.valid() ==> r.valid(),
    {
        if self.nanos >= other.nanos {
            Span { nanos: self.nanos - other.nanos }
        } else {
            Span { nanos: 0 }
        }
    }

    /// Whole milliseconds, held at `u64::MAX`.
    pub fn as_millis(self) -> (r: u64)
        ensures
            r == millis_of(self),
    {
        let millis: u128 = self.nanos / NANOS_PER_MILLISECOND;
        if millis <= 18_446_744_073_709_551_615u128 {
            millis as u64
        } else {
            u64::MAX
        }
    }

    pub fn is_zero(self) -> (r: bool)
        ensures
            r == (self.nanos == 0),
    {
        self.nanos == 0
    }
}

/// The sum of two spans, held at the longest span.
pub open spec fn span_sum(a: Span, b: Span) -> Span {
    Span {
        nanos: if a.nanos + b.nanos <= MAX_SPAN_NANOS {
            (a.nanos + b.nanos) as u128
        } else {
            MAX_SPAN_NANOS
        },
    }
}

/// The whole milliseconds of a span, held at `u64::MAX`.
pub open spec fn millis_of(span: Span) -> int {
    let millis = span.nanos as int / 1_000_000;
    if millis <= u64::MAX {
        millis
    } else {
        u64::MAX as int
    }
}

/// A span made of milliseconds gives those milliseconds back.
pub proof fn millis_round_trip(millis: u64, span: Span)
    requires
        span.nanos == millis * NANOS_PER_MILLISECOND,
    ensures
        millis_of(span) == millis,
{
}

} // verus!

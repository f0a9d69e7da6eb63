//! Lengths of time, counted in milliseconds.

use vstd::prelude::*;

verus! {

/// Milliseconds in a second.
pub const MILLIS_PER_SEC: u128 = 1000;

/// Seconds in a day: a delay or an interval above it is probably a mistake.
pub const SECS_PER_DAY: u64 = 86400;

/// A length of time in whole milliseconds.
#[derive(Clone, Copy, Debug, PartialEq, Eq, Structural)]
pub struct Span {
    pub millis: u128,
}

impl Span {
    /// No time at all.
    pub fn zero() -> (span: Span)
        ensures
            span.millis == 0,
    {
        Span { millis: 0 }
    }

    /// `secs` whole seconds.
    pub fn from_secs(secs: u64) -> (span: Span)
        ensures
            span.millis == secs * 1000,
    {
        let wide: u128 = secs as u128;
        Span { millis: wide * MILLIS_PER_SEC }
    }

    /// `millis` milliseconds.
    pub fn from_millis(millis: u64) -> (span: Span)
        ensures
            span.millis == millis,
    {
        Span { millis: millis as u128 }
    }

    /// The length in milliseconds.
    pub fn as_millis(&self) -> (millis: u128)
        ensures
            millis == self.millis,
    {
        self.millis
    }

    /// The whole seconds in the span.
    pub fn as_secs(&self) -> (secs: u128)
        ensures
            secs == self.millis / 1000,
    {
        self.millis / MILLIS_PER_SEC
    }

    /// The milliseconds beyond the whole seconds.
    pub fn subsec_millis(&self) -> (millis: u32)
        ensures
            millis == self.millis % 1000,
    {
        (self.millis % MILLIS_PER_SEC) as u32
    }

    /// Whether the span is empty.
    pub fn is_zero(&self) -> (yes: bool)
        ensures
            yes == (self.millis == 0),
    {
        self.millis == 0
    }

    /// Whether the span is longer than `other`.
    pub fn exceeds(&self, other: Span) -> (yes: bool)
        ensures
            yes == (self.millis > other.millis),
    {
        self.millis > other.millis
    }

    /// Whether the span is longer than a day.
    pub fn exceeds_a_day(&self) -> (yes: bool)
        ensures
            yes == (self.millis > SECS_PER_DAY * 1000),
    {
        self.exceeds(Span::from_secs(SECS_PER_DAY))
    }
}

} // verus!

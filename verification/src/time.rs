use vstd::prelude::*;

verus! {

pub const NANOS_PER_MICRO: u128 = 1_000;

pub const NANOS_PER_MILLI: u128 = 1_000_000;

pub const NANOS_PER_SEC: u128 = 1_000_000_000;

/// A non-negative length of time, counted in nanoseconds.
#[derive(Debug, Clone, Copy, PartialEq, Eq, Structural)]
pub struct Span {
    pub nanos: u128,
}

impl Span {
    pub fn from_nanos(nanos: u64) -> (span: Span)
        ensures
            span.nanos == nanos,
    {
        Span { nanos: nanos as u128 }
    }

    pub fn from_micros(micros: u64) -> (span: Span)
        ensures
            span.nanos == micros * NANOS_PER_MICRO,
    {
        Span { nanos: micros as u128 * NANOS_PER_MICRO }
    }

    pub fn from_millis(millis: u64) -> (span: Span)
        ensures
            span.nanos == millis * NANOS_PER_MILLI,
    {
        Span { nanos: millis as u128 * NANOS_PER_MILLI }
    }

    pub fn from_secs(secs: u64) -> (span: Span)
        ensures
            span.nanos == secs * NANOS_PER_SEC,
    {
        Span { nanos: secs as u128 * NANOS_PER_SEC }
    }

    /// Whole seconds in the span, the fraction dropped.
    pub fn as_secs(&self) -> (secs: u128)
        ensures
            secs == self.nanos / NANOS_PER_SEC,
    {
        self.nanos / NANOS_PER_SEC
    }

    /// What the span has beyond its whole seconds, in nanoseconds.
    pub fn subsec_nanos(&self) -> (nanos: u32)
        ensures
            nanos == self.nanos % NANOS_PER_SEC,
    {
        (self.nanos % NANOS_PER_SEC) as u32
    }

    /// Whole microseconds in the span, the fraction dropped.
    pub fn as_micros(&self) -> (micros: u128)
        ensures
            micros == self.nanos / NANOS_PER_MICRO,
    {
        self.nanos / NANOS_PER_MICRO
    }
}

} // verus!

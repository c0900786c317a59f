//! Monotonic time as plain values.
//!
//! An [`Instant`] counts nanoseconds from an arbitrary epoch of the host's
//! monotonic clock; a [`Duration`] counts nanoseconds between two of them.
use vstd::prelude::*;

verus! {

pub const NANOS_PER_MICRO: u128 = 1_000;

pub const NANOS_PER_MILLI: u128 = 1_000_000;

pub const NANOS_PER_SEC: u128 = 1_000_000_000;

/// A span of time.
#[derive(Debug, Clone, Copy, PartialEq, Eq, Structural)]
pub struct Duration {
    pub nanos: u128,
}

impl Duration {
    /// A span of whole microseconds.
    pub fn from_micros(micros: u64) -> (r: Duration)
        ensures
            r.nanos == micros * NANOS_PER_MICRO,
    {
        Duration { nanos: micros as u128 * NANOS_PER_MICRO }
    }

    /// A span of whole milliseconds.
    pub fn from_millis(millis: u64) -> (r: Duration)
        ensures
            r.nanos == millis * NANOS_PER_MILLI,
    {
        Duration { nanos: millis as u128 * NANOS_PER_MILLI }
    }

    /// A span of whole seconds.
    pub fn from_secs(secs: u64) -> (r: Duration)
        ensures
            r.nanos == secs * NANOS_PER_SEC,
    {
        Duration { nanos: secs as u128 * NANOS_PER_SEC }
    }

    /// The whole microseconds in the span.
    pub fn as_micros(self) -> (r: u128)
        ensures
            r == self.nanos as int / 1_000,
    {
        self.nanos / NANOS_PER_MICRO
    }

    /// The whole milliseconds in the span.
    pub fn as_millis(self) -> (r: u128)
        ensures
            r == self.nanos as int / 1_000_000,
    {
        self.nanos / NANOS_PER_MILLI
    }
}

/// A point on the monotonic clock.
#[derive(Debug, Clone, Copy, PartialEq, Eq, Structural)]
pub struct Instant {
    pub nanos: u128,
}

impl Instant {
    /// The instant `span` later, if the clock reaches that far.
    pub open spec fn after(self, span: Duration) -> Option<Instant> {
        if self.nanos + span.nanos <= u128::MAX {
            Some(Instant { nanos: (self.nanos + span.nanos) as u128 })
        } else {
            None
        }
    }

    /// Nanoseconds since `earlier`, zero when the two are reversed.
    pub open spec fn nanos_since(self, earlier: Instant) -> int {
        if earlier.nanos <= self.nanos {
            self.nanos - earlier.nanos
        } else {
            0
        }
    }

    /// The point `span` later, or `None` when the clock cannot represent it.
    pub fn checked_add(self, span: Duration) -> (r: Option<Instant>)
        ensures
            r == self.after(span),
    {
        match self.nanos.checked_add(span.nanos) {
            Some(nanos) => Some(Instant { nanos }),
            None => None,
        }
    }

    /// The span since `earlier`, zero when `earlier` is later than `self`.
    pub fn saturating_duration_since(self, earlier: Instant) -> (r: Duration)
        ensures
            r.nanos == self.nanos_since(earlier),
    {
        if earlier.nanos <= self.nanos {
            Duration { nanos: self.nanos - earlier.nanos }
        } else {
            Duration { nanos: 0 }
        }
    }
}

/// What is added can be measured again: the span between an instant and the one that
/// lies a span later is that span, and the other way round there is none.
pub proof fn spans_are_measured_as_added(start: Instant, span: Duration)
    ensures
        start.after(span) matches Some(end) ==> end.nanos_since(start) == span.nanos && (span.nanos
            > 0 ==> start.nanos_since(end) == 0),
        start.after(span) is None <==> start.nanos + span.nanos > u128::MAX,
{
}

/// A duration is read back in the unit that it was made of, and the units relate as
/// they should.
pub proof fn units_read_back(n: u64, duration: Duration, micros: u128, millis: u128)
    requires
        call_ensures(Duration::as_micros, (duration,), micros),
        call_ensures(Duration::as_millis, (duration,), millis),
    ensures
        call_ensures(Duration::from_micros, (n,), duration) ==> micros == n,
        call_ensures(Duration::from_millis, (n,), duration) ==> millis == n && micros == n * 1000,
        call_ensures(Duration::from_secs, (n,), duration) ==> millis == n * 1000 && micros == n
            * 1_000_000,
        millis * 1_000_000 <= duration.nanos < (millis + 1) * 1_000_000,
        micros * 1_000 <= duration.nanos < (micros + 1) * 1_000,
{
}

} // verus!

//! The retry interval: how long the loop waits between poll attempts.

use vstd::prelude::*;

verus! {

/// A length of time, as whole seconds plus a sub-second remainder in
/// nanoseconds. The surrounding program converts a parsed duration into a
/// `Span` and back when it actually sleeps.
#[derive(Clone, Copy, Debug, PartialEq, Eq, Structural)]
pub struct Span {
    /// Whole seconds.
    pub secs: u64,
    /// Nanoseconds beyond the whole seconds.
    pub nanos: u32,
}

impl Span {
    /// True when the span is zero time: no whole seconds and no nanoseconds.
    pub open spec fn is_zero_spec(self) -> bool {
        self.secs == 0 && self.nanos == 0
    }

    pub fn new(secs: u64, nanos: u32) -> (r: Self)
        ensures
            r.secs == secs,
            r.nanos == nanos,
    {
        Span { secs, nanos }
    }

    pub fn is_zero(&self) -> (r: bool)
        ensures
            r == self.is_zero_spec(),
    {
        self.secs == 0 && self.nanos == 0
    }
}

/// The policy governing the delay between poll attempts: retry at once, or
/// retry after a fixed span of time. Derived once at startup and immutable
/// for the rest of the run.
#[derive(Clone, Copy, Debug, PartialEq, Eq, Structural)]
pub enum Interval {
    /// Retry with no delay.
    Immediate,
    /// Retry after the given span.
    Delayed(Span),
}

/// The interval a configured duration gives rise to: a zero duration means
/// busy retrying, any other duration means a fixed delay of exactly that
/// duration.
pub open spec fn interval_of(d: Span) -> Interval {
    if d.is_zero_spec() {
        Interval::Immediate
    } else {
        Interval::Delayed(d)
    }
}

impl From<Span> for Interval {
    fn from(duration: Span) -> (r: Self)
        ensures
            r == interval_of(duration),
    {
        if duration.is_zero() {
            Interval::Immediate
        } else {
            Interval::Delayed(duration)
        }
    }
}

impl vstd::std_specs::convert::FromSpecImpl<Span> for Interval {
    open spec fn obeys_from_spec() -> bool {
        true
    }

    open spec fn from_spec(v: Span) -> Interval {
        interval_of(v)
    }
}

/// The wait that the interval imposes before the next attempt: none at all
/// for an immediate interval, the configured span for a delayed one.
pub open spec fn wait_of(i: Interval) -> Option<Span> {
    match i {
        Interval::Immediate => None,
        Interval::Delayed(d) => Some(d),
    }
}

impl Interval {
    /// How long to wait before the next poll attempt, if at all.
    pub fn wait(&self) -> (r: Option<Span>)
        ensures
            r == wait_of(*self),
    {
        match self {
            Interval::Immediate => None,
            Interval::Delayed(d) => Some(*d),
        }
    }
}

/// A zero configured duration yields an interval that imposes no wait at
/// all between attempts, and a non-zero one always imposes exactly the
/// configured duration.
pub proof fn lemma_zero_duration_no_wait(d: Span)
    ensures
        d.is_zero_spec() ==> wait_of(interval_of(d)) == None::<Span>,
        !d.is_zero_spec() ==> wait_of(interval_of(d)) == Some(d),
{
}

} // verus!

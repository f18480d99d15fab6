//! Spans of time, to the nanosecond.
use vstd::prelude::*;

verus! {

/// A span of time: whole seconds and the nanoseconds beyond them.
#[derive(Debug, Copy, Clone, PartialEq, Eq, Structural)]
pub struct TimeSpan {
    pub secs: u64,
    pub nanos: u32,
}

impl TimeSpan {
    /// The whole span in nanoseconds.
    pub open spec fn total_nanos(self) -> int {
        self.secs * 1_000_000_000 + self.nanos
    }

    /// The whole milliseconds in the span.
    pub open spec fn millis(self) -> int {
        self.secs * 1000 + self.nanos / 1_000_000
    }

    /// Whether the span is a whole number of milliseconds with less than a
    /// second in `nanos`.
    pub open spec fn whole_millis(self) -> bool {
        self.nanos < 1_000_000_000 && self.nanos % 1_000_000 == 0
    }

    /// The span of `millis` milliseconds.
    pub open spec fn of_millis(millis: u64) -> TimeSpan {
        TimeSpan { secs: millis / 1000, nanos: ((millis % 1000) * 1_000_000) as u32 }
    }

    /// The span of `millis` milliseconds.
    pub fn from_millis(millis: u64) -> (span: TimeSpan)
        ensures
            span == Self::of_millis(millis),
            span.millis() == millis,
            span.whole_millis(),
    {
        TimeSpan { secs: millis / 1000, nanos: ((millis % 1000) as u32) * 1_000_000 }
    }

    /// The span of `secs` seconds.
    pub fn from_secs(secs: u64) -> (span: TimeSpan)
        ensures
            span == (TimeSpan { secs, nanos: 0 }),
    {
        TimeSpan { secs, nanos: 0 }
    }

    /// The whole milliseconds in the span.
    pub fn as_millis(self) -> (millis: u128)
        ensures
            millis == self.millis(),
    {
        (self.secs as u128) * 1000 + (self.nanos / 1_000_000) as u128
    }

    /// Whether this span is strictly longer than `limit`.
    pub fn exceeds(self, limit: TimeSpan) -> (longer: bool)
        ensures
            longer == (self.total_nanos() > limit.total_nanos()),
    {
        let own: u128 = (self.secs as u128) * 1_000_000_000 + self.nanos as u128;
        let other: u128 = (limit.secs as u128) * 1_000_000_000 + limit.nanos as u128;
        own > other
    }
}

impl Default for TimeSpan {
    fn default() -> (span: TimeSpan)
        ensures
            span == (TimeSpan { secs: 0, nanos: 0 }),
    {
        TimeSpan { secs: 0, nanos: 0 }
    }
}

} // verus!

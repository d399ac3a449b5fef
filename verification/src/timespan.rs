use vstd::prelude::*;

verus! {

/// A span of time kept as whole seconds and the nanoseconds past them, the
/// way `std::time::Duration` keeps it (and ordered the same way: by seconds,
/// then by nanoseconds).
#[derive(Clone, Copy, Debug, PartialEq, Eq, Structural)]
pub struct TimeSpan {
    pub secs: u64,
    pub nanos: u32,
}

pub const NANOS_PER_SEC: u32 = 1_000_000_000;

pub const NANOS_PER_MILLI: u32 = 1_000_000;

impl TimeSpan {
    /// The span is in canonical form: fewer than a second of nanoseconds.
    pub open spec fn wf(self) -> bool {
        self.nanos < NANOS_PER_SEC
    }

    /// The length of the span in nanoseconds.
    pub open spec fn total_nanos(self) -> int {
        self.secs * (NANOS_PER_SEC as int) + self.nanos
    }

    /// `self` is at least as long as `other`, compared by seconds first and
    /// nanoseconds second.
    pub open spec fn at_least(self, other: TimeSpan) -> bool {
        self.secs > other.secs || (self.secs == other.secs && self.nanos >= other.nanos)
    }

    pub open spec fn zero_spec() -> TimeSpan {
        TimeSpan { secs: 0, nanos: 0 }
    }

    pub open spec fn from_millis_spec(millis: u64) -> TimeSpan {
        TimeSpan {
            secs: (millis / 1000) as u64,
            nanos: ((millis % 1000) * (NANOS_PER_MILLI as int)) as u32,
        }
    }

    /// The empty span.
    pub fn zero() -> (r: TimeSpan)
        ensures
            r == TimeSpan::zero_spec(),
            r.wf(),
            r.total_nanos() == 0,
    {
        TimeSpan { secs: 0, nanos: 0 }
    }

    /// The span of `millis` milliseconds.
    pub fn from_millis(millis: u64) -> (r: TimeSpan)
        ensures
            r == TimeSpan::from_millis_spec(millis),
            r.wf(),
            r.total_nanos() == millis * (NANOS_PER_MILLI as int),
    {
        let secs = millis / 1000;
        let rest = millis % 1000;
        assert(rest * 1_000_000 < 1_000_000_000) by (nonlinear_arith)
            requires rest < 1000;
        let nanos = (rest as u32) * NANOS_PER_MILLI;
        assert(secs * 1_000_000_000 + rest * 1_000_000 == millis * 1_000_000) by (nonlinear_arith)
            requires secs == millis / 1000, rest == millis % 1000;
        TimeSpan { secs, nanos }
    }

    /// Whether `self` is at least as long as `other`.
    pub fn ge(&self, other: &TimeSpan) -> (r: bool)
        ensures
            r == self.at_least(*other),
    {
        self.secs > other.secs || (self.secs == other.secs && self.nanos >= other.nanos)
    }
}

} // verus!

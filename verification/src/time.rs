//! Points in time and spans of time, in nanoseconds.
use vstd::prelude::*;

verus! {

/// A span of time.
#[derive(Clone, Copy, Debug, PartialEq, Eq, Structural)]
pub struct Duration {
    pub nanos: u64,
}

/// A point in time, counted from an arbitrary but fixed origin.
#[derive(Clone, Copy, Debug, PartialEq, Eq, Structural)]
pub struct Instant {
    pub nanos: u64,
}

impl Instant {
    /// The time that has passed from `earlier` to `self`, or none if `earlier` is later.
    pub open spec fn elapsed_since(self, earlier: Instant) -> Duration {
        Duration {
            nanos: if earlier.nanos <= self.nanos {
                (self.nanos - earlier.nanos) as u64
            } else {
                0
            },
        }
    }

    /// The point in time `span` after `self`, or the last representable one.
    pub open spec fn later_by(self, span: Duration) -> Instant {
        Instant {
            nanos: if self.nanos + span.nanos <= u64::MAX {
                (self.nanos + span.nanos) as u64
            } else {
                u64::MAX
            },
        }
    }

    /// `self - earlier`, saturating at zero.
    pub fn since(self, earlier: Instant) -> (span: Duration)
        ensures
            span == self.elapsed_since(earlier),
    {
        Duration { nanos: self.nanos.saturating_sub(earlier.nanos) }
    }

    /// `self + span`, saturating.
    pub fn after(self, span: Duration) -> (t: Instant)
        ensures
            t == self.later_by(span),
    {
        Instant { nanos: self.nanos.saturating_add(span.nanos) }
    }
}

} // verus!

//! Laws of points in time and spans of time.
use crate::time::{Duration, Instant};
use vstd::prelude::*;

verus! {

/// Going ahead in time by a span and measuring how far that was gives the span back, as long as
/// the clock can show it. Otherwise the clock stops at its end.
pub proof fn measuring_undoes_waiting(t: Instant, span: Duration)
    ensures
        t.later_by(span).nanos >= t.nanos,
        t.nanos + span.nanos <= u64::MAX ==> {
            &&& t.later_by(span).elapsed_since(t) == span
            &&& t.later_by(span).nanos == t.nanos + span.nanos
        },
        t.nanos + span.nanos > u64::MAX ==> t.later_by(span).nanos == u64::MAX,
{
}

/// Going ahead by what has passed leads from the earlier to the later point. From a point to an
/// earlier one nothing passes.
pub proof fn waiting_undoes_measuring(earlier: Instant, later: Instant)
    requires
        earlier.nanos <= later.nanos,
    ensures
        earlier.later_by(later.elapsed_since(earlier)) == later,
        earlier.elapsed_since(later).nanos == 0,
{
}

} // verus!

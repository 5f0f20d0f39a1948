//! Laws of the retransmission timeout.
use crate::rto::{RtoCalculator, MAX_RTO_NANOS};
use crate::time::Duration;
use vstd::prelude::*;

verus! {

/// However often a connection measures round trips or backs off, its timeout stays in its
/// range.
pub proof fn timeout_stays_in_range(calculator: RtoCalculator, rtts: Seq<Duration>)
    requires
        calculator.wf(),
    ensures
        RtoCalculator::initial().wf(),
        calculator.backed_off().wf(),
        calculator.sampled_all(rtts).wf(),
    decreases rtts.len(),
{
    if rtts.len() > 0 {
        timeout_stays_in_range(calculator.sampled(rtts[0]), rtts.drop_first());
    }
}

/// Backing off doubles the timeout until the largest one is reached.
pub proof fn backing_off_doubles(calculator: RtoCalculator)
    requires
        calculator.wf(),
    ensures
        2 * calculator.timeout.nanos <= MAX_RTO_NANOS ==> calculator.backed_off().timeout.nanos
            == 2 * calculator.timeout.nanos,
        2 * calculator.timeout.nanos > MAX_RTO_NANOS ==> calculator.backed_off().timeout.nanos
            == MAX_RTO_NANOS,
        calculator.backed_off().estimate == calculator.estimate,
{
}

/// A new measurement undoes any back-off: the timeout follows the estimate alone.
pub proof fn sample_undoes_back_off(calculator: RtoCalculator, rtt: Duration)
    ensures
        calculator.backed_off().sampled(rtt) == calculator.sampled(rtt),
{
}

/// Samples can be taken account of in portions.
pub proof fn sampling_adds_up(
    calculator: RtoCalculator,
    first: Seq<Duration>,
    second: Seq<Duration>,
)
    ensures
        calculator.sampled_all(first).sampled_all(second) == calculator.sampled_all(
            first + second,
        ),
    decreases first.len(),
{
    if first.len() == 0 {
        assert(first + second =~= second);
    } else {
        let rest = first.drop_first();
        assert((first + second).drop_first() =~= rest + second);
        assert((first + second)[0] == first[0]);
        sampling_adds_up(calculator.sampled(first[0]), rest, second);
    }
}

/// The first round trip is taken as it is, with half of it as its variation. Every further one
/// moves the smoothed time to seven parts of what it was and one part of the new, and the
/// variation to three parts of what it was and one part of how far the new lies off, rounded
/// down.
pub proof fn sample_moves_estimate(calculator: RtoCalculator, rtt: Duration)
    ensures
        calculator.sampled(rtt).estimate is Some,
        ({
            let new_estimate = calculator.sampled(rtt).estimate->0;
            match calculator.estimate {
                None => {
                    &&& new_estimate.srtt == rtt
                    &&& 0 <= rtt.nanos - 2 * new_estimate.rttvar.nanos <= 1
                },
                Some(known) => {
                    let off = if rtt.nanos >= known.srtt.nanos {
                        rtt.nanos - known.srtt.nanos
                    } else {
                        known.srtt.nanos - rtt.nanos
                    };
                    &&& 0 <= 7 * known.srtt.nanos + rtt.nanos - 8 * new_estimate.srtt.nanos < 8
                    &&& 0 <= 3 * known.rttvar.nanos + off - 4 * new_estimate.rttvar.nanos < 4
                },
            }
        }),
{
}

/// After a sample the timeout leaves four times the variation above the smoothed time, and at
/// least a millisecond, unless that lies below a second or above a minute.
pub proof fn sample_sets_timeout(calculator: RtoCalculator, rtt: Duration)
    ensures
        ({
            let later = calculator.sampled(rtt);
            let srtt = later.estimate->0.srtt.nanos;
            let margin = 4 * later.estimate->0.rttvar.nanos;
            let wanted = if margin >= 1_000_000 {
                srtt + margin
            } else {
                srtt + 1_000_000
            };
            &&& 1_000_000_000 <= wanted <= 60_000_000_000 ==> later.timeout.nanos == wanted
            &&& wanted < 1_000_000_000 ==> later.timeout.nanos == 1_000_000_000
            &&& wanted > 60_000_000_000 ==> later.timeout.nanos == 60_000_000_000
        }),
{
}

/// Samples are taken one after the other: none changes nothing, and one more is taken last.
pub proof fn samples_are_taken_in_order(
    calculator: RtoCalculator,
    rtts: Seq<Duration>,
    rtt: Duration,
)
    ensures
        calculator.sampled_all(Seq::empty()) == calculator,
        calculator.sampled_all(rtts.push(rtt)) == calculator.sampled_all(rtts).sampled(rtt),
{
    let last = seq![rtt];
    assert(rtts + last =~= rtts.push(rtt));
    sampling_adds_up(calculator, rtts, last);
    let before = calculator.sampled_all(rtts);
    assert(last.drop_first() =~= Seq::empty());
    assert(before.sampled_all(last) == before.sampled(rtt).sampled_all(last.drop_first()));
}

/// A new connection starts with a timeout of a second, and a timeout doubles from a second up to
/// a minute.
pub proof fn back_off_runs_up_to_a_minute(calculator: RtoCalculator)
    requires
        1_000_000_000 <= calculator.timeout.nanos <= 60_000_000_000,
    ensures
        RtoCalculator::initial().timeout.nanos == 1_000_000_000,
        RtoCalculator::initial().estimate is None,
        calculator.timeout.nanos <= 30_000_000_000 ==> calculator.backed_off().timeout.nanos == 2
            * calculator.timeout.nanos,
        calculator.timeout.nanos > 30_000_000_000 ==> calculator.backed_off().timeout.nanos
            == 60_000_000_000,
{
}

} // verus!

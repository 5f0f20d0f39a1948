//! The retransmission timeout of a connection (RFC 6298), in whole nanoseconds.
use crate::time::Duration;
use vstd::prelude::*;

verus! {

/// The timeout before any round trip has been measured (2.1): one second.
pub const INITIAL_RTO_NANOS: u64 = 1_000_000_000;

/// The smallest timeout (2.4): one second.
pub const MIN_RTO_NANOS: u64 = 1_000_000_000;

/// The largest timeout (2.5): one minute.
pub const MAX_RTO_NANOS: u64 = 60_000_000_000;

/// The granularity of the clock: one millisecond.
pub const GRANULARITY_NANOS: u64 = 1_000_000;

/// What is known of the round-trip time once it has been measured.
#[derive(Clone, Copy, Debug, PartialEq, Eq, Structural)]
pub struct RttEstimate {
    /// The smoothed round-trip time.
    pub srtt: Duration,
    /// The variation of the round-trip time.
    pub rttvar: Duration,
}

/// The retransmission timeout, and the estimate that it follows.
#[derive(Clone, Copy, Debug, PartialEq, Eq, Structural)]
pub struct RtoCalculator {
    /// None before the first measurement.
    pub estimate: Option<RttEstimate>,
    pub timeout: Duration,
}

/// A number of nanoseconds, moved into the range of timeouts.
pub open spec fn bounded_timeout(nanos: int) -> Duration {
    Duration {
        nanos: if nanos < MIN_RTO_NANOS {
            MIN_RTO_NANOS
        } else if nanos > MAX_RTO_NANOS {
            MAX_RTO_NANOS
        } else {
            nanos as u64
        },
    }
}

/// How far apart two spans of time are.
pub open spec fn distance(a: Duration, b: Duration) -> int {
    if a.nanos <= b.nanos {
        b.nanos - a.nanos
    } else {
        a.nanos - b.nanos
    }
}

/// The estimate after a round trip of length `rtt`: the first measurement is taken as it is
/// (2.2), each further one moves the mean by an eighth and the variation by a quarter (2.3).
pub open spec fn next_estimate(estimate: Option<RttEstimate>, rtt: Duration) -> RttEstimate {
    match estimate {
        None => RttEstimate { srtt: rtt, rttvar: Duration { nanos: (rtt.nanos / 2) as u64 } },
        Some(old_estimate) => RttEstimate {
            srtt: Duration { nanos: ((7 * old_estimate.srtt.nanos + rtt.nanos) / 8) as u64 },
            rttvar: Duration {
                nanos: ((3 * old_estimate.rttvar.nanos + distance(old_estimate.srtt, rtt))
                    / 4) as u64,
            },
        },
    }
}

/// The timeout that an estimate leads to: the mean and four times the variation.
pub open spec fn timeout_for(estimate: RttEstimate) -> Duration {
    let margin = 4 * estimate.rttvar.nanos;
    bounded_timeout(
        estimate.srtt.nanos + if margin < GRANULARITY_NANOS {
            GRANULARITY_NANOS as int
        } else {
            margin
        },
    )
}

impl RtoCalculator {
    /// The calculator of a new connection.
    pub open spec fn initial() -> RtoCalculator {
        RtoCalculator { estimate: None, timeout: Duration { nanos: INITIAL_RTO_NANOS } }
    }

    /// The timeout is in its range.
    pub open spec fn wf(self) -> bool {
        MIN_RTO_NANOS <= self.timeout.nanos <= MAX_RTO_NANOS
    }

    /// The calculator after a round trip of length `rtt`.
    pub open spec fn sampled(self, rtt: Duration) -> RtoCalculator {
        let estimate = next_estimate(self.estimate, rtt);
        RtoCalculator { estimate: Some(estimate), timeout: timeout_for(estimate) }
    }

    /// The calculator after several round trips, one after the other.
    pub open spec fn sampled_all(self, rtts: Seq<Duration>) -> RtoCalculator
        decreases rtts.len(),
    {
        if rtts.len() == 0 {
            self
        } else {
            self.sampled(rtts[0]).sampled_all(rtts.drop_first())
        }
    }

    /// The calculator after a retransmission timeout: the timeout doubles.
    pub open spec fn backed_off(self) -> RtoCalculator {
        RtoCalculator { timeout: bounded_timeout(2 * self.timeout.nanos), ..self }
    }

    pub fn new() -> (calculator: RtoCalculator)
        ensures
            calculator == RtoCalculator::initial(),
    {
        RtoCalculator { estimate: None, timeout: Duration { nanos: INITIAL_RTO_NANOS } }
    }

    /// The current retransmission timeout.
    pub fn rto(&self) -> (timeout: Duration)
        ensures
            timeout == self.timeout,
    {
        self.timeout
    }

    /// Takes account of a round trip of length `rtt`.
    pub fn add_sample(&mut self, rtt: Duration)
        ensures
            *final(self) == old(self).sampled(rtt),
    {
        let estimate: RttEstimate = match self.estimate {
            None => RttEstimate { srtt: rtt, rttvar: Duration { nanos: rtt.nanos / 2 } },
            Some(estimate) => {
                let srtt: u64 = estimate.srtt.nanos;
                let apart: u64 = if srtt <= rtt.nanos {
                    rtt.nanos - srtt
                } else {
                    srtt - rtt.nanos
                };
                let mean: u128 = (7 * srtt as u128 + rtt.nanos as u128) / 8;
                let variation: u128 = (3 * estimate.rttvar.nanos as u128 + apart as u128) / 4;
                RttEstimate {
                    srtt: Duration { nanos: mean as u64 },
                    rttvar: Duration { nanos: variation as u64 },
                }
            },
        };
        let scaled: u128 = 4 * estimate.rttvar.nanos as u128;
        let margin: u128 = if scaled < GRANULARITY_NANOS as u128 {
            GRANULARITY_NANOS as u128
        } else {
            scaled
        };
        self.timeout = Self::bounded(estimate.srtt.nanos as u128 + margin);
        self.estimate = Some(estimate);
    }

    /// Takes account of a retransmission timeout (5.5).
    pub fn back_off(&mut self)
        ensures
            *final(self) == old(self).backed_off(),
    {
        self.timeout = Self::bounded(2 * self.timeout.nanos as u128);
    }

    /// Moves a number of nanoseconds into the range of timeouts.
    fn bounded(nanos: u128) -> (timeout: Duration)
        ensures
            timeout == bounded_timeout(nanos as int),
    {
        if nanos < MIN_RTO_NANOS as u128 {
            Duration { nanos: MIN_RTO_NANOS }
        } else if nanos > MAX_RTO_NANOS as u128 {
            Duration { nanos: MAX_RTO_NANOS }
        } else {
            Duration { nanos: nanos as u64 }
        }
    }
}

} // verus!

//! What a congestion control algorithm offers to a connection.
use crate::seq_number::SeqNumber;
use crate::time::Duration;
use vstd::prelude::*;

verus! {

/// The value of an option of a congestion control algorithm.
#[derive(Clone, Debug, PartialEq, Eq)]
pub enum OptionValue {
    Flag(bool),
    Number(u64),
    Text(String),
}

/// Named options for a congestion control algorithm.
#[derive(Clone, Debug, PartialEq, Eq)]
pub struct Options {
    pub entries: Vec<(String, OptionValue)>,
}

/// The congestion window, and the events that move it. An algorithm that does not care
/// for an event leaves its handler out.
pub trait SlowStartCongestionAvoidance: Sized {
    /// The congestion window in bytes.
    spec fn cwnd(&self) -> u32;

    fn get_cwnd(&self) -> (cwnd: u32)
        ensures
            cwnd == self.cwnd(),
    ;

    /// Called immediately before the congestion window is checked to send data.
    fn on_cwnd_check_before_send(&mut self)
        default_ensures
            *final(self) == *old(self),
    {
    }

    fn on_ack_received(
        &mut self,
        _rto: Duration,
        _send_unacked: SeqNumber,
        _send_next: SeqNumber,
        _ack_seq_no: SeqNumber,
    )
        default_ensures
            *final(self) == *old(self),
    {
    }

    /// Called immediately before a retransmission after a retransmission timeout.
    fn on_rto(&mut self, _send_unacked: SeqNumber)
        default_ensures
            *final(self) == *old(self),
    {
    }

    /// Called immediately before a segment is sent for the first time.
    fn on_send(&mut self, _rto: Duration, _num_sent_bytes: u32)
        default_ensures
            *final(self) == *old(self),
    {
    }
}

/// Fast retransmit and fast recovery.
pub trait FastRetransmitRecovery: SlowStartCongestionAvoidance {
    /// Whether a segment should be retransmitted without waiting for a timeout.
    spec fn retransmit_now(&self) -> bool;

    fn get_duplicate_ack_count(&self) -> (count: u32)
        default_ensures
            count == 0,
    {
        0
    }

    fn get_retransmit_now_flag(&self) -> (flag: bool)
        ensures
            flag == self.retransmit_now(),
    ;

    /// Called when a segment has been retransmitted and when something new has been
    /// acknowledged. Every algorithm has to lower its retransmit flag here.
    fn on_fast_retransmit(&mut self)
        ensures
            !final(self).retransmit_now(),
    ;

    fn handle_dup_ack(&mut self, _send_next: SeqNumber, _ack_seq_no: SeqNumber)
        default_ensures
            *final(self) == *old(self),
    {
    }

    fn reset_dup_ack_count(&mut self)
        default_ensures
            *final(self) == *old(self),
    {
    }
}

/// Limited transmit.
pub trait LimitedTransmit: SlowStartCongestionAvoidance {
    /// By how many bytes more than the congestion window may be in flight.
    spec fn limited_transmit_cwnd_increase(&self) -> u32;

    fn get_limited_transmit_cwnd_increase(&self) -> (increase: u32)
        ensures
            increase == self.limited_transmit_cwnd_increase(),
    ;
}

/// A congestion control algorithm.
pub trait CongestionControl: FastRetransmitRecovery + LimitedTransmit {
    fn new(mss: usize, seq_no: SeqNumber, options: Option<Options>) -> Self;
}

/// No congestion control: the congestion window never limits the sender.
#[derive(Clone, Copy, Debug, PartialEq, Eq, Structural)]
pub struct NoCongestionControl {}

impl SlowStartCongestionAvoidance for NoCongestionControl {
    open spec fn cwnd(&self) -> u32 {
        u32::MAX
    }

    fn get_cwnd(&self) -> (cwnd: u32) {
        u32::MAX
    }
}

impl FastRetransmitRecovery for NoCongestionControl {
    open spec fn retransmit_now(&self) -> bool {
        false
    }

    fn get_retransmit_now_flag(&self) -> (flag: bool) {
        false
    }

    /// The flag is never raised, so there is nothing to lower.
    fn on_fast_retransmit(&mut self)
        ensures
            *final(self) == *old(self),
    {
    }
}

impl LimitedTransmit for NoCongestionControl {
    open spec fn limited_transmit_cwnd_increase(&self) -> u32 {
        0
    }

    fn get_limited_transmit_cwnd_increase(&self) -> (increase: u32) {
        0
    }
}

impl CongestionControl for NoCongestionControl {
    fn new(mss: usize, seq_no: SeqNumber, options: Option<Options>) -> (algorithm: Self)
        ensures
            algorithm == (NoCongestionControl {  }),
    {
        NoCongestionControl {  }
    }
}

} // verus!

//! The control block of a connection.
use crate::config::MAX_WINDOW_SCALE;
use crate::congestion_control::CongestionControl;
use crate::congestion_control_state::{allowed_bytes, samples, CongestionControlState};
use crate::connection_management_state::{awaits_fin_ack, ConnectionManagementState};
use crate::delivery_state::{
    connection_header, connection_segment, split_front, DeliveryState, DeliveryView,
};
use crate::fail::{Fail, FailKind};
use crate::flow_control_state::FlowControlState;
use crate::header::{HeaderView, OutgoingSegment, SegmentView, TcpHeader};
use crate::time::{Duration, Instant};
use vstd::prelude::*;

verus! {

/// The state of a TCP connection.
#[derive(Clone, Copy, Debug, PartialEq, Eq, Structural)]
pub enum State {
    Listen,
    SynSent,
    SynReceived,
    Established,
    FinWait1,
    FinWait2,
    Closing,
    TimeWait,
    CloseWait,
    LastAck,
    Closed,
}

/// What an attempt to send a buffer comes to.
#[verifier::ext_equal]
pub struct Transmission {
    /// The state of ordered delivery afterwards.
    pub delivery: DeliveryView,
    /// What is left of the buffer.
    pub left: Seq<u8>,
    /// The segment to transmit, if anything may be sent.
    pub segment: Option<SegmentView>,
}

/// The attempt to send a buffer when a segment may hold `max` bytes.
pub open spec fn transmission(
    cm: ConnectionManagementState,
    delivery: DeliveryView,
    buffer: Seq<u8>,
    max: int,
    rto: Duration,
    now: Instant,
) -> Transmission {
    if max <= 0 {
        Transmission { delivery, left: buffer, segment: None }
    } else {
        let n = DeliveryView::segment_len(buffer, max);
        Transmission {
            delivery: delivery.transmitted(buffer, n, rto, now),
            left: buffer.skip(n),
            segment: Some(delivery.data_segment(cm, buffer, n)),
        }
    }
}

/// The contents of a segment, if there is one.
pub open spec fn segment_view(segment: Option<OutgoingSegment>) -> Option<SegmentView> {
    match segment {
        Some(segment) => Some(segment@),
        None => None,
    }
}

/// One step of sending a buffer.
#[derive(Clone, Debug, PartialEq, Eq)]
pub enum SendStep {
    /// The peer's window is closed. The probe is to be transmitted, again and again, until the
    /// window changes. `finished` tells whether the probe holds the end of the buffer.
    WindowProbe { probe: OutgoingSegment, finished: bool },
    /// The segment is to be transmitted, if there is one. Unless `finished` tells that it
    /// holds the end of the buffer, the next step is to wait until SND.UNA, SND.NXT or a
    /// window changes.
    Segment { segment: Option<OutgoingSegment>, finished: bool },
}

/// The transmission control block of a connection. All fields are public, since both the
/// sending and the receiving path use them.
pub struct ControlBlock<C: CongestionControl> {
    pub connection_management: ConnectionManagementState,
    pub delivery: DeliveryState,
    pub flow_control: FlowControlState,
    pub congestion_control: CongestionControlState<C>,
}

impl<C: CongestionControl> ControlBlock<C> {
    /// Each component is well-formed, and an unacknowledged FIN goes with a state in which
    /// our FIN has been sent.
    pub open spec fn wf(self) -> bool {
        &&& self.delivery@.sender.wf()
        &&& self.delivery@.receiver.wf()
        &&& self.flow_control.wf()
        &&& self.congestion_control.rto_calculator.wf()
        &&& forall|i: int|
            0 <= i < self.delivery@.sender.unacked.len()
                && #[trigger] self.delivery@.sender.unacked[i].is_fin() ==> awaits_fin_ack(
                self.connection_management.state,
            )
    }

    /// A segment whose acknowledgement can be processed.
    pub open spec fn ack_fits(self, header: HeaderView) -> bool {
        &&& self.flow_control.send_window_scale_shift_bits <= MAX_WINDOW_SCALE
        &&& self.connection_management.fin_ack_fits(self.delivery@.sender, header.ack_num)
    }

    /// Whether `self` is what an acknowledgement makes of `before`. Every component goes by the
    /// queue of unacknowledged segments as it was before. The retransmission deadline goes by
    /// the timeout that the new samples have led to.
    pub open spec fn acknowledged_from(
        self,
        before: ControlBlock<C>,
        header: HeaderView,
        now: Instant,
    ) -> bool {
        let sender = before.delivery@.sender;
        &&& self.flow_control == before.flow_control.updated(header)
        &&& self.connection_management == before.connection_management.acknowledged(
            sender,
            header.ack_num,
        )
        &&& self.congestion_control.rto_calculator
            == before.congestion_control.rto_calculator.sampled_all(
            samples(sender.unacked, sender.newly_acked(header.ack_num), now),
        )
        &&& self.congestion_control.cc_algorithm == before.congestion_control.cc_algorithm
        &&& self.delivery@ == (DeliveryView {
            sender: sender.acknowledged(
                header.ack_num,
                self.congestion_control.rto_calculator.timeout,
                now,
            ),
            ..before.delivery@
        })
    }

    /// Whether `self` is what an attempt to send a buffer makes of `before`, given the
    /// congestion control algorithm as it was when it was asked for its window. Of the
    /// congestion control component only the algorithm itself may have changed.
    pub open spec fn sent_from(
        self,
        before: ControlBlock<C>,
        algorithm: C,
        buffer: Seq<u8>,
        now: Instant,
        left: Seq<u8>,
        segment: Option<SegmentView>,
    ) -> bool {
        &&& self.connection_management == before.connection_management
        &&& self.flow_control == before.flow_control
        &&& self.congestion_control.rto_calculator == before.congestion_control.rto_calculator
        &&& transmission(
            before.connection_management,
            before.delivery@,
            buffer,
            allowed_bytes(algorithm, before.delivery@.sender.in_flight(), before.flow_control),
            before.congestion_control.rto_calculator.timeout,
            now,
        ) == (Transmission { delivery: self.delivery@, left, segment })
    }

    /// Whether `self` is what a window probe makes of `before`: the first byte of the buffer goes
    /// out in the probe.
    pub open spec fn probed_from(
        self,
        before: ControlBlock<C>,
        buffer: Seq<u8>,
        now: Instant,
        left: Seq<u8>,
        probe: SegmentView,
    ) -> bool {
        &&& self.connection_management == before.connection_management
        &&& self.flow_control == before.flow_control
        &&& self.congestion_control == before.congestion_control
        &&& self.delivery@ == (DeliveryView {
            sender: before.delivery@.sender.sent(buffer.take(1), now),
            ..before.delivery@
        })
        &&& left == buffer.skip(1)
        &&& probe == connection_segment(
            before.connection_management,
            connection_header(
                before.connection_management,
                before.delivery@,
                before.delivery@.sender.send_next_seq_no,
            ),
            buffer.take(1),
        )
    }

    pub fn new(
        connection_management: ConnectionManagementState,
        delivery: DeliveryState,
        flow_control: FlowControlState,
        congestion_control: CongestionControlState<C>,
    ) -> (cb: Self)
        ensures
            cb.connection_management == connection_management,
            cb.delivery == delivery,
            cb.flow_control == flow_control,
            cb.congestion_control == congestion_control,
    {
        ControlBlock { connection_management, delivery, flow_control, congestion_control }
    }

    /// Hands an acknowledgement to each component. Connection management and congestion
    /// control read the queue of unacknowledged segments, so ordered delivery, which removes
    /// from it and uses the new timeout, comes last.
    fn process_ack(&mut self, header: &TcpHeader, now: Instant)
        requires
            old(self).ack_fits(header@),
        ensures
            final(self).acknowledged_from(*old(self), header@, now),
    {
        self.flow_control.update_send_window(header);
        self.connection_management.process_ack_state_change(&self.delivery, header);
        self.congestion_control.process_ack_state_change(&self.delivery, header, now);
        let rto: Duration = self.congestion_control.rto_calculator.rto();
        self.delivery.process_ack_state_change(rto, header, now);
    }

    /// Whether the acknowledgement of a segment can be processed.
    pub fn can_process_ack(&self, header: &TcpHeader) -> (r: bool)
        ensures
            r == self.ack_fits(header@),
    {
        self.flow_control.send_window_scale_shift_bits <= MAX_WINDOW_SCALE
            && self.connection_management.can_process_ack(&self.delivery, header)
    }

    /// Processes the acknowledgement of a segment. On a connection every segment has to
    /// acknowledge: one that does not is dropped, and changes nothing.
    pub fn check_and_process_ack(&mut self, header: &TcpHeader, now: Instant) -> (result: Result<
        (),
        Fail,
    >)
        requires
            header@.ack ==> old(self).ack_fits(header@),
        ensures
            header@.ack ==> {
                &&& result is Ok
                &&& final(self).acknowledged_from(*old(self), header@, now)
            },
            !header@.ack ==> {
                &&& result is Err
                &&& result->Err_0.kind == FailKind::BadMessage
                &&& result->Err_0.cause@ == "Received non-ACK segment on established connection"@
                &&& *final(self) == *old(self)
            },
    {
        if !header.ack {
            return Err(
                Fail::new(
                    FailKind::BadMessage,
                    "Received non-ACK segment on established connection",
                ),
            );
        }
        self.process_ack(header, now);
        Ok(())
    }

    /// Tries to send a buffer, which must not be empty. Returns how many bytes were sent and
    /// the segment that carries them, and takes them off the buffer.
    pub fn send_segment(&mut self, now: Instant, segment: &mut Vec<u8>) -> (sent: (
        usize,
        Option<OutgoingSegment>,
    ))
        requires
            old(segment)@.len() > 0,
            old(self).delivery@.receiver.wf(),
        ensures
            sent.0 == old(segment)@.len() - final(segment)@.len(),
            exists|checked: &mut C, told: &mut C|
                {
                    &&& *checked == old(self).congestion_control.cc_algorithm
                    &&& *final(checked) == *told
                    &&& *final(told) == final(self).congestion_control.cc_algorithm
                    &&& #[trigger] call_ensures(C::on_cwnd_check_before_send, (checked,), ())
                    &&& #[trigger] call_ensures(
                        C::on_send,
                        (
                            told,
                            old(self).congestion_control.rto_calculator.timeout,
                            old(self).delivery@.sender.in_flight() as u32,
                        ),
                        (),
                    )
                    &&& final(self).sent_from(
                        *old(self),
                        *told,
                        old(segment)@,
                        now,
                        final(segment)@,
                        segment_view(sent.1),
                    )
                },
    {
        let before: usize = segment.len();
        let max: usize = self.congestion_control.get_max_frame_size(
            &self.delivery,
            &self.flow_control,
        );
        let rto: Duration = self.congestion_control.rto_calculator.rto();
        let outgoing: Option<OutgoingSegment> = self.delivery.transmit_segment(
            &self.connection_management,
            rto,
            now,
            segment,
            max,
        );
        let sent: usize = before - segment.len();
        (sent, outgoing)
    }

    /// One step of sending a buffer, which must not be empty. While the peer's window is
    /// closed, a byte at a time goes out as a window probe. Otherwise as much is sent as the
    /// windows allow.
    pub fn send_buffer(&mut self, now: Instant, buffer: &mut Vec<u8>) -> (step: SendStep)
        requires
            old(buffer)@.len() > 0,
            old(self).delivery@.receiver.wf(),
        ensures
            old(self).flow_control.send_window == 0 ==> {
                &&& step is WindowProbe
                &&& step->WindowProbe_finished == (final(buffer)@.len() == 0)
                &&& final(self).probed_from(
                    *old(self),
                    old(buffer)@,
                    now,
                    final(buffer)@,
                    step->probe@,
                )
            },
            old(self).flow_control.send_window != 0 ==> {
                &&& step is Segment
                &&& step->Segment_finished == (final(buffer)@.len() == 0)
                &&& exists|checked: &mut C, told: &mut C|
                    {
                        &&& *checked == old(self).congestion_control.cc_algorithm
                        &&& *final(checked) == *told
                        &&& *final(told) == final(self).congestion_control.cc_algorithm
                        &&& #[trigger] call_ensures(C::on_cwnd_check_before_send, (checked,), ())
                        &&& #[trigger] call_ensures(
                            C::on_send,
                            (
                                told,
                                old(self).congestion_control.rto_calculator.timeout,
                                old(self).delivery@.sender.in_flight() as u32,
                            ),
                            (),
                        )
                        &&& final(self).sent_from(
                            *old(self),
                            *told,
                            old(buffer)@,
                            now,
                            final(buffer)@,
                            segment_view(step->segment),
                        )
                    }
            },
    {
        if self.flow_control.send_window == 0 {
            let front: Vec<u8> = split_front(buffer, 1);
            let probe: OutgoingSegment = self.delivery.send_window_probe(
                &self.connection_management,
                now,
                front,
            );
            return SendStep::WindowProbe { probe, finished: buffer.len() == 0 };
        }
        let (_, segment) = self.send_segment(now, buffer);
        SendStep::Segment { segment, finished: buffer.len() == 0 }
    }
}

} // verus!

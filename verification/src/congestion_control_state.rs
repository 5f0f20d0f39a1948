//! Congestion control: how much may be in flight, and when a transmission counts as lost.
use crate::congestion_control::CongestionControl;
use crate::ctrlblk::ControlBlock;
use crate::delivery_state::DeliveryState;
use crate::fail::{Fail, FailKind};
use crate::flow_control_state::FlowControlState;
use crate::header::TcpHeader;
use crate::laws::timeout::sampling_adds_up;
use crate::rto::RtoCalculator;
use crate::sender::{SenderView, UnackedView};
use crate::seq_number::SeqNumber;
use crate::time::{Duration, Instant};
use vstd::prelude::*;

verus! {

/// The samples of the round-trip time that an acknowledgement of the first `acked` sequence
/// numbers of a queue yields: one for each data segment in front of any FIN that it covers at
/// least in part, unless the segment cannot serve as a sample.
pub open spec fn samples(queue: Seq<UnackedView>, acked: int, now: Instant) -> Seq<Duration>
    decreases queue.len(),
{
    if queue.len() == 0 || acked <= 0 || queue[0].is_fin() {
        Seq::empty()
    } else {
        sample(queue[0].initial_tx, now) + samples(
            queue.drop_first(),
            acked - queue[0].span(),
            now,
        )
    }
}

/// The sample that a segment yields, if it yields one.
pub open spec fn sample(initial_tx: Option<Instant>, now: Instant) -> Seq<Duration> {
    match initial_tx {
        Some(initial_tx) => seq![now.elapsed_since(initial_tx)],
        None => Seq::empty(),
    }
}

/// The congestion window together with what limited transmit adds to it, as far as the sum
/// fits.
pub open spec fn effective_cwnd(cwnd: u32, increase: u32) -> u32 {
    if cwnd + increase <= u32::MAX {
        (cwnd + increase) as u32
    } else {
        u32::MAX
    }
}

/// Whether both the send window and the congestion window leave room for what is in flight.
pub open spec fn window_is_open(win_sz: u32, sent_data: u32, effective_cwnd: u32) -> bool {
    win_sz > 0 && win_sz >= sent_data && effective_cwnd >= sent_data
}

/// The smaller of two numbers.
pub open spec fn min(a: int, b: int) -> int {
    if a <= b {
        a
    } else {
        b
    }
}

/// How many more bytes may be sent at once: what the send window and the congestion window
/// leave, and no more than a segment holds. Nothing if either window is closed.
pub open spec fn open_window(win_sz: u32, sent_data: u32, mss: usize, effective_cwnd: u32) -> int {
    if window_is_open(win_sz, sent_data, effective_cwnd) {
        min(min(win_sz - sent_data, mss as int), effective_cwnd - sent_data)
    } else {
        0
    }
}

/// How much the algorithm and the peer allow to be sent at once.
pub open spec fn allowed_bytes<C: CongestionControl>(
    algorithm: C,
    in_flight: int,
    flow_control: FlowControlState,
) -> int {
    open_window(
        flow_control.send_window,
        in_flight as u32,
        flow_control.mss,
        effective_cwnd(algorithm.cwnd(), algorithm.limited_transmit_cwnd_increase()),
    )
}

/// Whether our FIN has been sent and acknowledged: SND.UNA is behind it.
pub open spec fn fin_is_acked(sender: SenderView) -> bool {
    sender.sender_fin_seq_no is Some && sender.sender_fin_seq_no->0.before(sender.send_unacked)
}

/// What the retransmitter has waited for.
#[derive(Clone, Copy, Debug, PartialEq, Eq, Structural)]
pub enum RetransmitEvent {
    /// Nothing: it has yet to look at the connection.
    Resumed,
    /// The retransmission deadline or the fast retransmit flag changed.
    SomethingChanged,
    /// The retransmission deadline passed.
    DeadlinePassed,
}

/// What the retransmitter does next.
#[derive(Clone, Copy, Debug, PartialEq, Eq)]
pub enum RetransmitAction {
    /// Look at the connection again.
    Resume,
    /// The oldest unacknowledged segment counts as lost: have ordered delivery send it again,
    /// and look at the connection again.
    Retransmit,
    /// Wait for a change, until the deadline if there is one.
    Wait { deadline: Option<Instant> },
    /// Stop: the connection is over.
    Stop(Fail),
}

/// The congestion control parameters of a connection. All fields are public, since other
/// parts of the stack read them.
pub struct CongestionControlState<C: CongestionControl> {
    /// Retransmission timeout calculator.
    pub rto_calculator: RtoCalculator,
    pub cc_algorithm: C,
}

/// What an event leads the retransmitter to, and what it makes of the connection. It touches
/// congestion control alone. Of the algorithm only what every algorithm promises is said here.
pub open spec fn retransmitter_step<C: CongestionControl>(
    before: ControlBlock<C>,
    event: RetransmitEvent,
    after: ControlBlock<C>,
    action: RetransmitAction,
) -> bool {
    let timeout = before.congestion_control.rto_calculator;
    &&& after.connection_management == before.connection_management
    &&& after.delivery == before.delivery
    &&& after.flow_control == before.flow_control
    &&& match event {
        RetransmitEvent::Resumed => if before.congestion_control.cc_algorithm.retransmit_now() {
            &&& action == RetransmitAction::Retransmit
            &&& !after.congestion_control.cc_algorithm.retransmit_now()
            &&& after.congestion_control.rto_calculator == timeout
        } else {
            &&& action == RetransmitAction::Wait {
                deadline: before.delivery@.sender.retransmit_deadline,
            }
            &&& after == before
        },
        RetransmitEvent::SomethingChanged => {
            &&& after == before
            &&& if fin_is_acked(before.delivery@.sender) {
                &&& action is Stop
                &&& action->Stop_0.kind == FailKind::ConnectionReset
                &&& action->Stop_0.cause@ == "connection closed"@
            } else {
                action == RetransmitAction::Resume
            }
        },
        RetransmitEvent::DeadlinePassed => {
            &&& action == RetransmitAction::Retransmit
            &&& after.congestion_control.rto_calculator == timeout.backed_off()
        },
    }
}

impl<C: CongestionControl> CongestionControlState<C> {
    pub fn new(congestion_control_algorithm: C) -> (state: Self)
        ensures
            state.rto_calculator == RtoCalculator::initial(),
            state.cc_algorithm == congestion_control_algorithm,
    {
        CongestionControlState {
            rto_calculator: RtoCalculator::new(),
            cc_algorithm: congestion_control_algorithm,
        }
    }

    /// Adds a sample of the round-trip time if the time of the first transmission is known. An
    /// acknowledgement of the first byte of a segment is enough for a sample.
    pub fn add_sample(&mut self, segment_initial_tx: Option<Instant>, now: Instant)
        ensures
            final(self).rto_calculator == old(self).rto_calculator.sampled_all(
                sample(segment_initial_tx, now),
            ),
            final(self).cc_algorithm == old(self).cc_algorithm,
    {
        match segment_initial_tx {
            Some(initial_tx) => {
                proof {
                    reveal_with_fuel(RtoCalculator::sampled_all, 2);
                }
                self.rto_calculator.add_sample(now.since(initial_tx));
            },
            None => {},
        }
    }

    /// Processes the acknowledgement number of a segment: every data segment that it covers,
    /// up to our FIN, yields a sample of the round-trip time.
    pub fn process_ack_state_change(
        &mut self,
        delivery_state: &DeliveryState,
        header: &TcpHeader,
        now: Instant,
    )
        ensures
            final(self).rto_calculator == old(self).rto_calculator.sampled_all(
                samples(
                    delivery_state@.sender.unacked,
                    delivery_state@.sender.newly_acked(header@.ack_num),
                    now,
                ),
            ),
            final(self).cc_algorithm == old(self).cc_algorithm,
    {
        let sender = &delivery_state.sender;
        if sender.send_unacked.lt(header.ack_num) {
            let acked: u32 = header.ack_num.minus(sender.send_unacked);
            let mut remaining: usize = acked as usize;
            let mut i: usize = 0;
            let ghost queue = sender@.unacked;
            let ghost all = samples(queue, acked as int, now);
            assert(queue.skip(0) =~= queue);
            while i < sender.unacked_queue.len() && remaining > 0
                invariant
                    i <= sender.unacked_queue.len(),
                    queue == sender@.unacked,
                    sender == delivery_state.sender,
                    sender@.newly_acked(header@.ack_num) == acked,
                    all == samples(queue, acked as int, now),
                    self.rto_calculator.sampled_all(
                        samples(queue.skip(i as int), remaining as int, now),
                    ) == old(self).rto_calculator.sampled_all(all),
                    self.cc_algorithm == old(self).cc_algorithm,
                decreases sender.unacked_queue.len() - i,
            {
                let ghost rest = queue.skip(i as int);
                assert(rest[0] == sender.unacked_queue@[i as int]@);
                assert(rest.drop_first() =~= queue.skip(i + 1));
                match &sender.unacked_queue[i].bytes {
                    None => {
                        assert(samples(rest, remaining as int, now) =~= Seq::empty());
                        return;
                    },
                    Some(data) => {
                        let ghost before = self.rto_calculator;
                        let ghost first = sample(rest[0].initial_tx, now);
                        let ghost others = samples(
                            queue.skip(i + 1),
                            remaining - data@.len(),
                            now,
                        );
                        assert(samples(rest, remaining as int, now) == first + others);
                        self.add_sample(sender.unacked_queue[i].initial_tx, now);
                        proof {
                            sampling_adds_up(before, first, others);
                        }
                        if data.len() >= remaining {
                            remaining = 0;
                        } else {
                            remaining = remaining - data.len();
                        }
                    },
                }
                i = i + 1;
            }
            assert(samples(queue.skip(i as int), remaining as int, now) =~= Seq::empty());
        }
    }

    /// How many bytes may be sent at once. The algorithm is told first, so that it can shrink
    /// the congestion window of a connection that has been idle.
    pub fn get_open_window_size_bytes(
        &mut self,
        delivery: &DeliveryState,
        flow_control: &FlowControlState,
    ) -> (size: usize)
        ensures
            size == allowed_bytes(
                final(self).cc_algorithm,
                delivery@.sender.in_flight(),
                *flow_control,
            ),
            final(self).rto_calculator == old(self).rto_calculator,
            exists|algorithm: &mut C|
                {
                    &&& *algorithm == old(self).cc_algorithm
                    &&& *final(algorithm) == final(self).cc_algorithm
                    &&& #[trigger] call_ensures(C::on_cwnd_check_before_send, (algorithm,), ())
                },
    {
        let sent_data: u32 = delivery.sender.send_next_seq_no.minus(delivery.sender.send_unacked);
        self.cc_algorithm.on_cwnd_check_before_send();
        let cwnd: u32 = self.cc_algorithm.get_cwnd();
        let increase: u32 = self.cc_algorithm.get_limited_transmit_cwnd_increase();
        let effective: u32 = cwnd.saturating_add(increase);
        let win_sz: u32 = flow_control.send_window;
        if Self::has_open_window(win_sz, sent_data, effective) {
            Self::calculate_open_window_bytes(win_sz, sent_data, flow_control.mss, effective)
        } else {
            0
        }
    }

    /// Whether anything may be sent.
    pub fn has_open_window(win_sz: u32, sent_data: u32, effective_cwnd: u32) -> (open: bool)
        ensures
            open == window_is_open(win_sz, sent_data, effective_cwnd),
    {
        win_sz > 0 && win_sz >= sent_data && effective_cwnd >= sent_data
    }

    /// How many bytes may be sent at once, given that both windows leave room.
    pub fn calculate_open_window_bytes(
        win_sz: u32,
        sent_data: u32,
        mss: usize,
        effective_cwnd: u32,
    ) -> (size: usize)
        requires
            sent_data <= win_sz,
            sent_data <= effective_cwnd,
        ensures
            size == min(min(win_sz - sent_data, mss as int), effective_cwnd - sent_data),
    {
        let window: usize = (win_sz - sent_data) as usize;
        let frame: usize = if window <= mss {
            window
        } else {
            mss
        };
        let room: usize = (effective_cwnd - sent_data) as usize;
        if frame <= room {
            frame
        } else {
            room
        }
    }

    /// How many bytes the next segment may hold. The algorithm is told of the transmission:
    /// the retransmission timeout, and how many bytes are in flight.
    pub fn get_max_frame_size(
        &mut self,
        delivery: &DeliveryState,
        flow_control: &FlowControlState,
    ) -> (size: usize)
        ensures
            final(self).rto_calculator == old(self).rto_calculator,
            exists|checked: &mut C, told: &mut C|
                {
                    &&& *checked == old(self).cc_algorithm
                    &&& *final(checked) == *told
                    &&& *final(told) == final(self).cc_algorithm
                    &&& #[trigger] call_ensures(C::on_cwnd_check_before_send, (checked,), ())
                    &&& #[trigger] call_ensures(
                        C::on_send,
                        (
                            told,
                            old(self).rto_calculator.timeout,
                            delivery@.sender.in_flight() as u32,
                        ),
                        (),
                    )
                    &&& size == allowed_bytes(*told, delivery@.sender.in_flight(), *flow_control)
                },
    {
        let size: usize = self.get_open_window_size_bytes(delivery, flow_control);
        let rto: Duration = self.rto_calculator.rto();
        let in_flight: u32 = delivery.sender.send_next_seq_no.minus(delivery.sender.send_unacked);
        self.cc_algorithm.on_send(rto, in_flight);
        size
    }

    /// One step of the retransmitter. It lets the algorithm know of fast retransmissions and
    /// of timeouts, backs off after a timeout, and stops once our FIN has been acknowledged.
    /// A raised fast retransmit flag is lowered on the way, so it is answered once.
    pub fn background_retransmitter_cc(cb: &mut ControlBlock<C>, event: RetransmitEvent) -> (action:
        RetransmitAction)
        ensures
            retransmitter_step(*old(cb), event, *final(cb), action),
            event is Resumed && old(cb).congestion_control.cc_algorithm.retransmit_now()
                ==> exists|algorithm: &mut C|
                {
                    &&& *algorithm == old(cb).congestion_control.cc_algorithm
                    &&& *final(algorithm) == final(cb).congestion_control.cc_algorithm
                    &&& #[trigger] call_ensures(C::on_fast_retransmit, (algorithm,), ())
                },
            event is DeadlinePassed ==> exists|algorithm: &mut C|
                {
                    &&& *algorithm == old(cb).congestion_control.cc_algorithm
                    &&& *final(algorithm) == final(cb).congestion_control.cc_algorithm
                    &&& #[trigger] call_ensures(
                        C::on_rto,
                        (algorithm, old(cb).delivery@.sender.send_unacked),
                        (),
                    )
                },
    {
        match event {
            RetransmitEvent::Resumed => {
                if cb.congestion_control.cc_algorithm.get_retransmit_now_flag() {
                    cb.congestion_control.cc_algorithm.on_fast_retransmit();
                    RetransmitAction::Retransmit
                } else {
                    RetransmitAction::Wait {
                        deadline: cb.delivery.sender.retransmit_deadline_time_secs,
                    }
                }
            },
            RetransmitEvent::SomethingChanged => {
                match cb.delivery.sender.sender_fin_seq_no {
                    Some(fin_seq_no) => {
                        if fin_seq_no.lt(cb.delivery.sender.send_unacked) {
                            RetransmitAction::Stop(
                                Fail::new(FailKind::ConnectionReset, "connection closed"),
                            )
                        } else {
                            RetransmitAction::Resume
                        }
                    },
                    None => RetransmitAction::Resume,
                }
            },
            RetransmitEvent::DeadlinePassed => {
                let send_unacked: SeqNumber = cb.delivery.sender.send_unacked;
                assert(send_unacked == cb.delivery@.sender.send_unacked);
                cb.congestion_control.cc_algorithm.on_rto(send_unacked);
                cb.congestion_control.rto_calculator.back_off();
                RetransmitAction::Retransmit
            },
        }
    }
}

} // verus!

//! Laws of sending.
use crate::congestion_control::{CongestionControl, NoCongestionControl};
use crate::congestion_control_state::{allowed_bytes, effective_cwnd, min, window_is_open};
use crate::connection_management_state::ConnectionManagementState;
use crate::ctrlblk::{transmission, ControlBlock};
use crate::delivery_state::DeliveryView;
use crate::flow_control_state::FlowControlState;
use crate::header::SegmentView;
use crate::laws::queue::span_grows_by_segment;
use crate::laws::sequence::{advancing_adds_up, advancing_undoes_difference};
use crate::sender::{SenderView, UnackedView};
use crate::seq_number::{half_space, SeqNumber};
use crate::time::{Duration, Instant};
use vstd::prelude::*;

verus! {

/// Something may be sent if and only if both windows are larger than what is in flight and a
/// segment holds anything. Never more may be sent than either window leaves, or than a segment
/// holds.
pub proof fn windows_limit_sending<C: CongestionControl>(
    algorithm: C,
    in_flight: int,
    flow_control: FlowControlState,
)
    requires
        0 <= in_flight <= u32::MAX,
    ensures
        ({
            let allowed = allowed_bytes(algorithm, in_flight, flow_control);
            let cwnd = effective_cwnd(algorithm.cwnd(), algorithm.limited_transmit_cwnd_increase());
            &&& 0 <= allowed <= flow_control.mss
            &&& allowed > 0 ==> in_flight + allowed <= flow_control.send_window
            &&& allowed > 0 ==> in_flight + allowed <= cwnd
            &&& allowed > 0 <==> in_flight < flow_control.send_window && in_flight < cwnd
                && flow_control.mss > 0
        }),
{
}

/// Without congestion control only the peer's window and the segment size limit the sender.
pub proof fn only_peer_limits_without_congestion_control(
    algorithm: NoCongestionControl,
    in_flight: int,
    flow_control: FlowControlState,
)
    requires
        0 <= in_flight <= flow_control.send_window,
    ensures
        allowed_bytes(algorithm, in_flight, flow_control) == min(
            flow_control.send_window - in_flight,
            flow_control.mss as int,
        ),
{
}

/// Noting sent data keeps a sender well-formed as long as less than half of the sequence space
/// is in flight and no FIN has been sent.
proof fn noting_sent_data_keeps_wf(sender: SenderView, bytes: Seq<u8>, now: Instant)
    requires
        sender.wf(),
        bytes.len() > 0,
        sender.in_flight() + bytes.len() < half_space(),
        forall|i: int| 0 <= i < sender.unacked.len() ==> !#[trigger] sender.unacked[i].is_fin(),
    ensures
        sender.sent(bytes, now).wf(),
        sender.sent(bytes, now).in_flight() == sender.in_flight() + bytes.len(),
{
    let segment = UnackedView { bytes: Some(bytes), initial_tx: Some(now) };
    let after = sender.sent(bytes, now);
    span_grows_by_segment(sender.unacked, segment);
    assert(segment.span() == bytes.len());
    assert forall|i: int| 0 <= i < after.unacked.len() implies #[trigger] after.unacked[i].span()
        > 0 && !after.unacked[i].is_fin() by {
        if i < sender.unacked.len() {
            assert(after.unacked[i] == sender.unacked[i]);
            assert(sender.unacked[i].span() > 0);
            assert(!sender.unacked[i].is_fin());
        }
    }
}

/// What is in flight grows by what is sent.
proof fn flight_grows(unacked: SeqNumber, next: SeqNumber, n: int)
    requires
        0 <= n,
        next.steps_from(unacked) + n <= u32::MAX,
    ensures
        next.advanced(n).steps_from(unacked) == next.steps_from(unacked) + n,
{
    let flying = next.steps_from(unacked);
    advancing_undoes_difference(unacked, next, flying + n);
    advancing_adds_up(unacked, flying, n);
}

/// An attempt to send loses nothing and respects every limit: the payload of the segment and
/// what is left of the buffer make up the buffer; the payload fits a segment; what is in flight
/// afterwards fits both windows; and the segment continues the stream at SND.NXT. If the
/// windows allow something, something of a buffer is sent, and otherwise nothing changes.
#[verifier::spinoff_prover]
#[verifier::rlimit(40)]
pub proof fn sending_respects_windows<C: CongestionControl>(
    cm: ConnectionManagementState,
    delivery: DeliveryView,
    buffer: Seq<u8>,
    algorithm: C,
    flow_control: FlowControlState,
    rto: Duration,
    now: Instant,
)
    requires
        delivery.sender.wf(),
        flow_control.wf(),
        buffer.len() > 0,
    ensures
        ({
            let allowed = allowed_bytes(algorithm, delivery.sender.in_flight(), flow_control);
            let t = transmission(cm, delivery, buffer, allowed, rto, now);
            let cwnd = effective_cwnd(algorithm.cwnd(), algorithm.limited_transmit_cwnd_increase());
            &&& t.segment is Some <==> allowed > 0
            &&& t.segment is Some ==> {
                let segment: SegmentView = t.segment->0;
                &&& segment.payload + t.left == buffer
                &&& 0 < segment.payload.len() <= flow_control.mss
                &&& segment.header.seq_num == delivery.sender.send_next_seq_no
                &&& t.delivery.sender.send_next_seq_no
                    == delivery.sender.send_next_seq_no.advanced(segment.payload.len() as int)
                &&& t.delivery.sender.in_flight() == delivery.sender.in_flight()
                    + segment.payload.len()
                &&& t.delivery.sender.in_flight() <= flow_control.send_window
                &&& t.delivery.sender.in_flight() <= cwnd
                &&& t.delivery.receiver == delivery.receiver
            }
            &&& t.segment is None ==> t.left == buffer && t.delivery == delivery
        }),
{
    let in_flight = delivery.sender.in_flight();
    let allowed = allowed_bytes(algorithm, in_flight, flow_control);
    windows_limit_sending(algorithm, in_flight, flow_control);
    if allowed > 0 {
        let n = DeliveryView::segment_len(buffer, allowed);
        assert(buffer.take(n) + buffer.skip(n) =~= buffer);
        assert(buffer.take(n).len() == n);
        flight_grows(delivery.sender.send_unacked, delivery.sender.send_next_seq_no, n);
    }
}

/// Sending keeps a connection well-formed as long as no FIN has been sent.
pub proof fn sending_keeps_wf<C: CongestionControl>(
    before: ControlBlock<C>,
    after: ControlBlock<C>,
    algorithm: C,
    buffer: Seq<u8>,
    now: Instant,
    left: Seq<u8>,
    segment: Option<SegmentView>,
)
    requires
        before.wf(),
        buffer.len() > 0,
        forall|i: int|
            0 <= i < before.delivery@.sender.unacked.len()
                ==> !#[trigger] before.delivery@.sender.unacked[i].is_fin(),
        after.sent_from(before, algorithm, buffer, now, left, segment),
    ensures
        after.wf(),
{
    let sender = before.delivery@.sender;
    let allowed = allowed_bytes(algorithm, sender.in_flight(), before.flow_control);
    windows_limit_sending(algorithm, sender.in_flight(), before.flow_control);
    if allowed > 0 {
        let n = DeliveryView::segment_len(buffer, allowed);
        let bytes = buffer.take(n);
        noting_sent_data_keeps_wf(sender, bytes, now);
        let noted = sender.sent(bytes, now);
        let later = after.delivery@.sender;
        assert(later.unacked == noted.unacked);
        assert(later.in_flight() == noted.in_flight());
        assert forall|i: int| 0 <= i < later.unacked.len() implies !(
        #[trigger] later.unacked[i].is_fin()) by {
            if i < sender.unacked.len() {
                assert(later.unacked[i] == sender.unacked[i]);
            }
        }
        assert(later.wf());
    }
}

/// A window probe keeps a sender well-formed as long as less than half of the sequence space is
/// in flight and no FIN has been sent.
pub proof fn probing_keeps_wf(sender: SenderView, probe: Seq<u8>, now: Instant)
    requires
        sender.wf(),
        probe.len() == 1,
        sender.in_flight() + 1 < half_space(),
        forall|i: int| 0 <= i < sender.unacked.len() ==> !#[trigger] sender.unacked[i].is_fin(),
    ensures
        sender.sent(probe, now).wf(),
        sender.sent(probe, now).in_flight() == sender.in_flight() + 1,
{
    noting_sent_data_keeps_wf(sender, probe, now);
}

/// Through a closed window nothing is sent, whatever the algorithm says.
pub proof fn closed_window_blocks<C: CongestionControl>(
    algorithm: C,
    in_flight: int,
    flow_control: FlowControlState,
)
    requires
        flow_control.send_window == 0,
    ensures
        allowed_bytes(algorithm, in_flight, flow_control) == 0,
{
}

/// One step of sending a buffer: the connection before and after it, the buffer and what is left
/// of it, and the segment that goes out, if one does.
pub struct SendRecord<C: CongestionControl> {
    pub before: ControlBlock<C>,
    pub after: ControlBlock<C>,
    /// The congestion control algorithm as it was when it was asked for its window.
    pub algorithm: C,
    pub now: Instant,
    pub buffer: Seq<u8>,
    pub left: Seq<u8>,
    pub segment: Option<SegmentView>,
}

impl<C: CongestionControl> SendRecord<C> {
    /// The step is one of [`ControlBlock::send_buffer`]: a window probe while the peer's window
    /// is closed, and as much as the windows allow otherwise.
    pub open spec fn valid(self) -> bool {
        &&& self.buffer.len() > 0
        &&& if self.before.flow_control.send_window == 0 {
            &&& self.segment is Some
            &&& self.after.probed_from(
                self.before,
                self.buffer,
                self.now,
                self.left,
                self.segment->0,
            )
        } else {
            self.after.sent_from(
                self.before,
                self.algorithm,
                self.buffer,
                self.now,
                self.left,
                self.segment,
            )
        }
    }

    /// The bytes that go out in the step.
    pub open spec fn piece(self) -> Seq<u8> {
        match self.segment {
            Some(segment) => segment.payload,
            None => Seq::empty(),
        }
    }

    /// SND.NXT before the step.
    pub open spec fn start(self) -> SeqNumber {
        self.before.delivery@.sender.send_next_seq_no
    }

    /// SND.NXT after the step.
    pub open spec fn end(self) -> SeqNumber {
        self.after.delivery@.sender.send_next_seq_no
    }
}

/// Whether valid steps follow each other: each one goes on with what the one before has left of
/// the buffer. Between two steps anything may happen to the connection but that something else
/// is sent.
pub open spec fn is_send_run<C: CongestionControl>(steps: Seq<SendRecord<C>>) -> bool {
    &&& forall|i: int| 0 <= i < steps.len() ==> #[trigger] steps[i].valid()
    &&& forall|i: int, j: int|
        #![trigger steps[i], steps[j]]
        0 <= i && j == i + 1 && j < steps.len() ==> {
            &&& steps[j].buffer == steps[i].left
            &&& steps[j].start() == steps[i].end()
        }
}

/// The bytes that go out in several steps, joined in order.
pub open spec fn joined_pieces<C: CongestionControl>(steps: Seq<SendRecord<C>>) -> Seq<u8>
    decreases steps.len(),
{
    if steps.len() == 0 {
        Seq::empty()
    } else {
        joined_pieces(steps.drop_last()) + steps.last().piece()
    }
}

/// A step takes its piece off the front of the buffer, sends it at SND.NXT, keeps it for
/// retransmission, and moves SND.NXT behind it.
pub proof fn step_sends_front<C: CongestionControl>(step: SendRecord<C>)
    requires
        step.valid(),
    ensures
        step.piece() + step.left == step.buffer,
        step.segment is Some ==> {
            &&& step.piece().len() > 0
            &&& step.segment->0.header.seq_num == step.start()
            &&& step.after.delivery@.sender.unacked == step.before.delivery@.sender.unacked.push(
                UnackedView { bytes: Some(step.piece()), initial_tx: Some(step.now) },
            )
        },
        step.end() == step.start().advanced(step.piece().len() as int),
{
    let buffer = step.buffer;
    if step.before.flow_control.send_window == 0 {
        assert(buffer.take(1) + buffer.skip(1) =~= buffer);
    } else {
        let max = allowed_bytes(
            step.algorithm,
            step.before.delivery@.sender.in_flight(),
            step.before.flow_control,
        );
        let t = transmission(
            step.before.connection_management,
            step.before.delivery@,
            buffer,
            max,
            step.before.congestion_control.rto_calculator.timeout,
            step.now,
        );
        assert(t.left == step.left && t.segment == step.segment);
        assert(t.delivery == step.after.delivery@);
        if max > 0 {
            let n = DeliveryView::segment_len(buffer, max);
            assert(buffer.take(n) + buffer.skip(n) =~= buffer);
        } else {
            assert(step.piece() + step.left =~= buffer);
        }
    }
}

/// A whole buffer goes out once and in order: over any number of steps, the pieces that went
/// out, joined in order, and what is left make up the buffer. The last piece, if there is one,
/// was sent behind all pieces before it, and SND.NXT has moved by as much as went out. So once
/// nothing is left, the pieces are the buffer.
pub proof fn whole_buffer_is_sent_once<C: CongestionControl>(steps: Seq<SendRecord<C>>)
    requires
        is_send_run(steps),
        steps.len() > 0,
    ensures
        joined_pieces(steps) + steps.last().left == steps[0].buffer,
        steps.last().end() == steps[0].start().advanced(joined_pieces(steps).len() as int),
        steps.last().segment is Some ==> steps.last().segment->0.header.seq_num
            == steps[0].start().advanced(joined_pieces(steps.drop_last()).len() as int),
        steps.last().left.len() == 0 ==> joined_pieces(steps) == steps[0].buffer,
    decreases steps.len(),
{
    let earlier = steps.drop_last();
    let last = steps.last();
    assert(steps[steps.len() - 1].valid());
    step_sends_front(last);
    if earlier.len() == 0 {
        assert(joined_pieces(earlier) == Seq::<u8>::empty());
        assert(joined_pieces(steps) =~= last.piece());
    } else {
        assert forall|i: int| 0 <= i < earlier.len() implies #[trigger] earlier[i].valid() by {
            assert(earlier[i] == steps[i]);
        }
        assert forall|i: int, j: int|
            #![trigger earlier[i], earlier[j]]
            0 <= i && j == i + 1 && j < earlier.len() implies {
            &&& earlier[j].buffer == earlier[i].left
            &&& earlier[j].start() == earlier[i].end()
        } by {
            assert(earlier[i] == steps[i] && earlier[j] == steps[j]);
        }
        whole_buffer_is_sent_once(earlier);
        let n = steps.len() as int;
        assert(earlier.last() == steps[n - 2]);
        assert(last == steps[n - 1]);
        assert(last.buffer == earlier.last().left);
        assert(joined_pieces(steps) + last.left =~= joined_pieces(earlier) + last.buffer);
        advancing_adds_up(
            steps[0].start(),
            joined_pieces(earlier).len() as int,
            last.piece().len() as int,
        );
    }
    if last.left.len() == 0 {
        assert(joined_pieces(steps) + last.left =~= joined_pieces(steps));
    }
}

/// As much may be sent as fits: the allowance is used up by the segment size, by the send window
/// or by the congestion window, and by none of them sooner. The congestion window is that of the
/// algorithm together with what limited transmit adds, up to the largest 32-bit number.
pub proof fn allowance_is_largest<C: CongestionControl>(
    algorithm: C,
    in_flight: int,
    flow_control: FlowControlState,
)
    requires
        0 <= in_flight <= u32::MAX,
    ensures
        ({
            let allowed = allowed_bytes(algorithm, in_flight, flow_control);
            let sum = algorithm.cwnd() + algorithm.limited_transmit_cwnd_increase();
            let cwnd = if sum <= u32::MAX {
                sum
            } else {
                u32::MAX as int
            };
            let window = flow_control.send_window as int;
            let mss = flow_control.mss as int;
            &&& in_flight < window && in_flight < cwnd ==> {
                &&& 0 <= allowed <= mss
                &&& in_flight + allowed <= window
                &&& in_flight + allowed <= cwnd
                &&& (allowed == mss || in_flight + allowed == window || in_flight + allowed
                    == cwnd)
            }
            &&& in_flight >= window || in_flight >= cwnd ==> allowed == 0
        }),
{
}

/// Sending sends as much as is allowed. Nothing goes out only if the send window or the
/// congestion window is used up, or segments hold nothing. Otherwise the front of the buffer goes
/// out, and something of the buffer is left only if the payload fills a segment, the send window
/// or the congestion window. The peer is asked to push the data if nothing is left.
pub proof fn sending_uses_what_is_allowed<C: CongestionControl>(
    before: ControlBlock<C>,
    after: ControlBlock<C>,
    algorithm: C,
    buffer: Seq<u8>,
    now: Instant,
    left: Seq<u8>,
    segment: Option<SegmentView>,
)
    requires
        buffer.len() > 0,
        after.sent_from(before, algorithm, buffer, now, left, segment),
    ensures
        ({
            let sender = before.delivery@.sender;
            let flying = sender.send_next_seq_no.steps_from(sender.send_unacked);
            let sum = algorithm.cwnd() + algorithm.limited_transmit_cwnd_increase();
            let cwnd = if sum <= u32::MAX {
                sum
            } else {
                u32::MAX as int
            };
            let window = before.flow_control.send_window as int;
            let mss = before.flow_control.mss as int;
            let sent = buffer.len() - left.len();
            &&& segment is None <==> flying >= window || flying >= cwnd || mss == 0
            &&& segment is None ==> left == buffer && after.delivery@ == before.delivery@
            &&& segment is Some ==> {
                &&& 0 < sent <= mss
                &&& flying + sent <= window
                &&& flying + sent <= cwnd
                &&& left.len() > 0 ==> sent == mss || flying + sent == window || flying + sent
                    == cwnd
                &&& segment->0.payload == buffer.take(sent)
                &&& left == buffer.skip(sent)
                &&& segment->0.header.psh == (left.len() == 0)
                &&& segment->0.header.seq_num == sender.send_next_seq_no
            }
        }),
{
    let sender = before.delivery@.sender;
    let flying = sender.in_flight();
    advancing_undoes_difference(sender.send_unacked, sender.send_next_seq_no, 0);
    allowance_is_largest(algorithm, flying, before.flow_control);
    windows_limit_sending(algorithm, flying, before.flow_control);
    let max = allowed_bytes(algorithm, flying, before.flow_control);
    let t = transmission(
        before.connection_management,
        before.delivery@,
        buffer,
        max,
        before.congestion_control.rto_calculator.timeout,
        now,
    );
    assert(t.left == left && t.segment == segment && t.delivery == after.delivery@);
}

/// What sending makes of a connection: SND.NXT moves behind the payload, the payload joins the
/// queue with the time of its transmission, and the retransmission timer runs, from now if it was
/// not running. The rest of the connection stays as it is, but for what the congestion control
/// algorithm makes of itself.
pub proof fn sending_notes_what_is_sent<C: CongestionControl>(
    before: ControlBlock<C>,
    after: ControlBlock<C>,
    algorithm: C,
    buffer: Seq<u8>,
    now: Instant,
    left: Seq<u8>,
    segment: Option<SegmentView>,
)
    requires
        after.sent_from(before, algorithm, buffer, now, left, segment),
    ensures
        after.connection_management == before.connection_management,
        after.flow_control == before.flow_control,
        after.congestion_control.rto_calculator == before.congestion_control.rto_calculator,
        after.delivery@.receiver == before.delivery@.receiver,
        segment is Some ==> {
            let sender = before.delivery@.sender;
            let later = after.delivery@.sender;
            let rto = before.congestion_control.rto_calculator.timeout.nanos;
            &&& later.send_unacked == sender.send_unacked
            &&& later.send_next_seq_no == sender.send_next_seq_no.advanced(
                segment->0.payload.len() as int,
            )
            &&& later.unsent == sender.unsent
            &&& later.sender_fin_seq_no == sender.sender_fin_seq_no
            &&& later.unacked.len() == sender.unacked.len() + 1
            &&& later.unacked.drop_last() == sender.unacked
            &&& later.unacked.last().bytes == Some(segment->0.payload)
            &&& later.unacked.last().initial_tx == Some(now)
            &&& sender.retransmit_deadline is Some ==> later.retransmit_deadline
                == sender.retransmit_deadline
            &&& sender.retransmit_deadline is None && now.nanos + rto <= u64::MAX ==>
                later.retransmit_deadline == Some(Instant { nanos: (now.nanos + rto) as u64 })
        },
{
    let max = allowed_bytes(algorithm, before.delivery@.sender.in_flight(), before.flow_control);
    let t = transmission(
        before.connection_management,
        before.delivery@,
        buffer,
        max,
        before.congestion_control.rto_calculator.timeout,
        now,
    );
    assert(t.left == left && t.segment == segment && t.delivery == after.delivery@);
    if segment is Some {
        let n = DeliveryView::segment_len(buffer, max);
        assert(after.delivery@.sender.unacked.drop_last() =~= before.delivery@.sender.unacked);
    }
}

/// A window probe carries exactly the first byte of the buffer, at SND.NXT. It joins the queue
/// like any data, but starts no retransmission timer, since it is repeated on its own.
pub proof fn probe_carries_one_byte<C: CongestionControl>(
    before: ControlBlock<C>,
    after: ControlBlock<C>,
    buffer: Seq<u8>,
    now: Instant,
    left: Seq<u8>,
    probe: SegmentView,
)
    requires
        buffer.len() > 0,
        after.probed_from(before, buffer, now, left, probe),
    ensures
        ({
            let sender = before.delivery@.sender;
            let later = after.delivery@.sender;
            &&& probe.payload.len() == 1
            &&& probe.payload[0] == buffer[0]
            &&& probe.payload + left == buffer
            &&& probe.header.seq_num == sender.send_next_seq_no
            &&& later.send_next_seq_no == sender.send_next_seq_no.advanced(1)
            &&& later.send_unacked == sender.send_unacked
            &&& later.retransmit_deadline == sender.retransmit_deadline
            &&& later.unsent == sender.unsent
            &&& later.sender_fin_seq_no == sender.sender_fin_seq_no
            &&& later.unacked.len() == sender.unacked.len() + 1
            &&& later.unacked.drop_last() == sender.unacked
            &&& later.unacked.last().bytes == Some(probe.payload)
            &&& later.unacked.last().initial_tx == Some(now)
            &&& after.delivery@.receiver == before.delivery@.receiver
            &&& after.connection_management == before.connection_management
            &&& after.flow_control == before.flow_control
            &&& after.congestion_control == before.congestion_control
        }),
{
    assert(buffer.take(1) + buffer.skip(1) =~= buffer);
    assert(after.delivery@.sender.unacked.drop_last() =~= before.delivery@.sender.unacked);
}

/// A window is shut if it is not there, or if more is in flight than it or the congestion window
/// holds, and only then. The smaller of two numbers is one of them and none is below it.
pub proof fn windows_shut_when_exceeded(
    win_sz: u32,
    sent_data: u32,
    effective: u32,
    a: int,
    b: int,
)
    ensures
        !window_is_open(win_sz, sent_data, effective) <==> win_sz == 0 || sent_data > win_sz
            || sent_data > effective,
        min(a, b) <= a && min(a, b) <= b,
        min(a, b) == a || min(a, b) == b,
{
}

} // verus!

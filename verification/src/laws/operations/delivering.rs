//! What acknowledgements and data that arrive do.
use crate::congestion_control::CongestionControl;
use crate::congestion_control_state::CongestionControlState;
use crate::connection_management_state::ConnectionManagementState;
use crate::ctrlblk::{ControlBlock, State};
use crate::delivery_state::DeliveryState;
use crate::fail::{Fail, FailKind};
use crate::flow_control_state::FlowControlState;
use crate::header::{OutgoingSegment, TcpHeader};
use crate::laws::acknowledging::{
    ack_feeds_estimate, ack_restarts_timer, ack_takes_out_what_it_covers, acked_fin_closes,
    misplaced_fin_ack_does_not_fit,
};
use crate::laws::queue::{contents, holds_fin, is_send_queue};
use crate::laws::receiving::{
    data_in_order_is_received, early_data_waits, filled_hole_releases_frame, receiving_keeps_wf,
    stream_of, window_promises_all_room,
};
use crate::laws::segments::{ack_only_acknowledges, belongs_to_connection};
use crate::laws::window::{acknowledgement_sets_window, window_follows_recent_segments};
use crate::receiver::{FrameView, Receiver};
use crate::sender::{total_span, Sender};
use crate::seq_number::SeqNumber;
use crate::time::{Duration, Instant};
use vstd::arithmetic::power2::pow2;
use vstd::prelude::*;

verus! {

/// A segment that is not older than the one that last updated the window sets it, and an older
/// one does not touch it.
pub proof fn recent_segments_set_window(state: &mut FlowControlState, header: TcpHeader)
    requires
        old(state).send_window_scale_shift_bits <= 14,
        call_ensures(FlowControlState::update_send_window, (state, &header), ()),
    ensures
        ({
            let seq_ahead = header.seq_num.steps_from(old(state).send_window_last_update_seq);
            let ack_ahead = header.ack_num.steps_from(old(state).send_window_last_update_ack);
            let recent = 0 < seq_ahead <= 0x8000_0000 || (seq_ahead == 0 && ack_ahead
                <= 0x8000_0000);
            &&& recent ==> {
                &&& final(state).send_window == header.window_size * pow2(
                    old(state).send_window_scale_shift_bits as nat,
                )
                &&& final(state).send_window_last_update_seq == header.seq_num
                &&& final(state).send_window_last_update_ack == header.ack_num
            }
            &&& !recent ==> *final(state) == *old(state)
            &&& final(state).mss == old(state).mss
            &&& final(state).send_window_scale_shift_bits == old(
                state).send_window_scale_shift_bits
        }),
{
    window_follows_recent_segments(*old(state), header@);
}

/// A segment without an acknowledgement is refused and changes nothing.
pub proof fn segments_have_to_acknowledge<C: CongestionControl>(
    cb: &mut ControlBlock<C>,
    header: TcpHeader,
    now: Instant,
    result: Result<(), Fail>,
)
    requires
        call_ensures(ControlBlock::<C>::check_and_process_ack, (cb, &header, now), result),
    ensures
        result is Err <==> !header.ack,
        result is Err ==> {
            &&& result->Err_0.kind == FailKind::BadMessage
            &&& *final(cb) == *old(cb)
        },
{
    assert(header@.ack == header.ack);
}

/// An acknowledgement of everything up to `acked` sequence numbers behind SND.UNA: SND.UNA moves
/// there, exactly the acknowledged bytes leave the queue, the window follows the segment, our FIN
/// moves the state if it is covered, and the receiving half is left alone.
pub proof fn acknowledgement_is_processed<C: CongestionControl>(
    cb: &mut ControlBlock<C>,
    header: TcpHeader,
    now: Instant,
    result: Result<(), Fail>,
)
    requires
        call_ensures(ControlBlock::<C>::check_and_process_ack, (cb, &header, now), result),
        header.ack,
        old(cb).wf(),
        old(cb).delivery@.sender.can_be_acked(header.ack_num),
    ensures
        ({
            let sender = old(cb).delivery@.sender;
            let later = final(cb).delivery@.sender;
            let flying = sender.send_next_seq_no.steps_from(sender.send_unacked);
            let acked = header.ack_num.steps_from(sender.send_unacked);
            &&& 0 < acked <= flying ==> {
                &&& later.send_unacked == header.ack_num
                &&& contents(later.unacked) == contents(sender.unacked).skip(acked)
            }
            &&& !(0 < acked <= flying) ==> final(cb).delivery@ == old(cb).delivery@
            &&& later.send_next_seq_no == sender.send_next_seq_no
            &&& final(cb).delivery@.receiver == old(cb).delivery@.receiver
            &&& holds_fin(sender.unacked) && header.ack_num == sender.send_next_seq_no ==> {
                let state = old(cb).connection_management.state;
                let closed = final(cb).connection_management.state;
                ||| state == State::FinWait1 && closed == State::FinWait2
                ||| state == State::Closing && closed == State::TimeWait
                ||| state == State::LastAck && closed == State::Closed
            }
            &&& !(holds_fin(sender.unacked) && header.ack_num == sender.send_next_seq_no) ==>
                final(cb).connection_management.state == old(cb).connection_management.state
        }),
        result is Ok,
{
    ack_takes_out_what_it_covers(*old(cb), *final(cb), header@, now);
    acked_fin_closes(*old(cb), *final(cb), header@, now);
    let sender = old(cb).delivery@.sender;
    if holds_fin(sender.unacked) {
        let i = choose|i: int| 0 <= i < sender.unacked.len() && #[trigger] sender.unacked[i].is_fin();
        assert(sender.unacked[i].bytes is None);
    } else {
        assert forall|i: int| 0 <= i < sender.unacked.len() implies !((
        #[trigger] sender.unacked[i]).bytes is None) by {
            assert(!sender.unacked[i].is_fin());
        }
    }
}

/// Every acknowledgement that is not older than the last window update sets the send window to
/// what its header grants, so the sender always goes by the newest word of the peer.
pub proof fn acknowledgement_grants_window<C: CongestionControl>(
    cb: &mut ControlBlock<C>,
    header: TcpHeader,
    now: Instant,
    result: Result<(), Fail>,
    further: int,
)
    requires
        call_ensures(ControlBlock::<C>::check_and_process_ack, (cb, &header, now), result),
        header.ack,
        old(cb).flow_control.send_window_scale_shift_bits <= 14,
        0 <= further <= 0x8000_0000,
        ({
            ||| header.seq_num == old(cb).flow_control.send_window_last_update_seq
                && header.ack_num == old(cb).flow_control.send_window_last_update_ack.advanced(
                further,
            )
            ||| further > 0 && header.seq_num == old(
                cb).flow_control.send_window_last_update_seq.advanced(further)
        }),
    ensures
        final(cb).flow_control.send_window == header.window_size * pow2(
            old(cb).flow_control.send_window_scale_shift_bits as nat,
        ),
{
    acknowledgement_sets_window(*old(cb), *final(cb), header@, now, further);
}

/// An acknowledgement of something new restarts the retransmission timer with the timeout that its
/// samples have led to, or stops it if nothing is left.
pub proof fn acknowledgement_restarts_timer<C: CongestionControl>(
    cb: &mut ControlBlock<C>,
    header: TcpHeader,
    now: Instant,
    result: Result<(), Fail>,
)
    requires
        call_ensures(ControlBlock::<C>::check_and_process_ack, (cb, &header, now), result),
        header.ack,
        0 < header.ack_num.steps_from(old(cb).delivery@.sender.send_unacked) <= 0x8000_0000,
    ensures
        ({
            let later = final(cb).delivery@.sender;
            let rto = final(cb).congestion_control.rto_calculator.timeout.nanos;
            &&& later.unacked.len() == 0 <==> later.retransmit_deadline is None
            &&& later.unacked.len() > 0 ==> {
                let since = match later.unacked[0].initial_tx {
                    Some(sent) => sent.nanos,
                    None => now.nanos,
                };
                since + rto <= u64::MAX ==> later.retransmit_deadline->0.nanos == since + rto
            }
        }),
        final(cb).congestion_control.cc_algorithm == old(cb).congestion_control.cc_algorithm,
{
    ack_restarts_timer(*old(cb), *final(cb), header@, now);
    ack_feeds_estimate(*old(cb), *final(cb), header@, now);
}

/// Whether an acknowledgement can be processed is told rightly: one of something that has been
/// sent can, and one that overshoots our FIN or comes in the wrong state cannot.
pub proof fn fitting_acknowledgements_are_recognised<C: CongestionControl>(
    cb: ControlBlock<C>,
    header: TcpHeader,
    fits: bool,
)
    requires
        call_ensures(ControlBlock::<C>::can_process_ack, (&cb, &header), fits),
    ensures
        cb.wf() && cb.delivery@.sender.can_be_acked(header.ack_num) ==> fits,
        ({
            let sender = cb.delivery@.sender;
            let state = cb.connection_management.state;
            let acked = header.ack_num.steps_from(sender.send_unacked);
            &&& is_send_queue(sender.unacked)
            &&& holds_fin(sender.unacked)
            &&& total_span(sender.unacked) <= acked <= 0x8000_0000
            &&& {
                ||| acked != total_span(sender.unacked)
                ||| sender.sender_fin_seq_no is None
                ||| sender.sender_fin_seq_no->0.advanced(1) != header.ack_num
                ||| (state != State::FinWait1 && state != State::Closing && state
                    != State::LastAck)
            }
        }) ==> !fits,
{
    if cb.wf() && cb.delivery@.sender.can_be_acked(header.ack_num) {
        crate::laws::acknowledging::acceptable_ack_fits(cb, header@);
    }
    let sender = cb.delivery@.sender;
    let state = cb.connection_management.state;
    let acked = header.ack_num.steps_from(sender.send_unacked);
    if is_send_queue(sender.unacked) && holds_fin(sender.unacked) && total_span(sender.unacked)
        <= acked <= 0x8000_0000 && (acked != total_span(sender.unacked)
        || sender.sender_fin_seq_no is None || sender.sender_fin_seq_no->0.advanced(1)
        != header.ack_num || (state != State::FinWait1 && state != State::Closing && state
        != State::LastAck)) {
        misplaced_fin_ack_does_not_fit(cb, header@);
    }
}

/// A sample of the round-trip time is the time since the transmission, and without a transmission
/// time there is none.
pub proof fn samples_are_measured<C: CongestionControl>(
    state: &mut CongestionControlState<C>,
    initial_tx: Option<Instant>,
    now: Instant,
)
    requires
        call_ensures(CongestionControlState::<C>::add_sample, (state, initial_tx, now), ()),
        old(state).rto_calculator.estimate is None,
    ensures
        initial_tx is None ==> final(state).rto_calculator == old(state).rto_calculator,
        initial_tx is Some && initial_tx->0.nanos <= now.nanos ==> {
            &&& final(state).rto_calculator.estimate is Some
            &&& final(state).rto_calculator.estimate->0.srtt.nanos == now.nanos
                - initial_tx->0.nanos
        },
        final(state).cc_algorithm == old(state).cc_algorithm,
{
    reveal_with_fuel(crate::rto::RtoCalculator::sampled_all, 2);
}

/// Data that arrives after the peer's FIN is ignored.
pub proof fn data_after_fin_is_ignored(
    delivery: &mut DeliveryState,
    cm: ConnectionManagementState,
    data: Vec<u8>,
    start: SeqNumber,
    end: SeqNumber,
    len: u32,
    result: Result<Option<OutgoingSegment>, Fail>,
)
    requires
        call_ensures(
            DeliveryState::handle_data,
            (delivery, &cm, data, start, end, len),
            result,
        ),
        cm.state != State::Established,
        cm.state != State::FinWait1,
        cm.state != State::FinWait2,
    ensures
        result is Ok,
        result->Ok_0 is None,
        final(delivery)@ == old(delivery)@,
{
}

/// Data that continues the stream is received at once, and with it what waited for it. What still
/// waits has neither been received nor been passed. No ACK is asked for.
pub proof fn data_in_order_is_delivered(
    delivery: &mut DeliveryState,
    cm: ConnectionManagementState,
    data: Vec<u8>,
    start: SeqNumber,
    end: SeqNumber,
    len: u32,
    result: Result<Option<OutgoingSegment>, Fail>,
)
    requires
        call_ensures(
            DeliveryState::handle_data,
            (delivery, &cm, data, start, end, len),
            result,
        ),
        cm.state == State::Established || cm.state == State::FinWait1 || cm.state
            == State::FinWait2,
        start == old(delivery)@.receiver.receive_next_seq_no,
    ensures
        result is Ok,
        result->Ok_0 is None,
        final(delivery)@.sender == old(delivery)@.sender,
        ({
            let receiver = old(delivery)@.receiver;
            let later = final(delivery)@.receiver;
            let added = stream_of(later.received).len() - stream_of(receiver.received).len();
            &&& receiver.received.push(data@).is_prefix_of(later.received)
            &&& added >= data@.len()
            &&& later.receive_next_seq_no == receiver.receive_next_seq_no.advanced(added)
            &&& forall|frame: FrameView| #[trigger]
                receiver.out_of_order.contains(frame) ==> later.out_of_order.contains(frame)
                    || later.received.contains(frame.data) || frame.start.before(
                    later.receive_next_seq_no,
                )
            &&& forall|frame: FrameView| #[trigger]
                later.out_of_order.contains(frame) ==> receiver.out_of_order.contains(frame)
            &&& later.reader_next_seq_no == receiver.reader_next_seq_no
            &&& later.buffer_size_bytes == receiver.buffer_size_bytes
            &&& later.ack_deadline == receiver.ack_deadline
        }),
{
    data_in_order_is_received(old(delivery)@.receiver, data@);
    receiving_keeps_wf(old(delivery)@.receiver, start, end, data@);
}

/// The first frame that waits right behind data in order is received with it.
pub proof fn waiting_frame_is_released(
    delivery: &mut DeliveryState,
    cm: ConnectionManagementState,
    data: Vec<u8>,
    start: SeqNumber,
    end: SeqNumber,
    len: u32,
    result: Result<Option<OutgoingSegment>, Fail>,
    k: int,
)
    requires
        call_ensures(
            DeliveryState::handle_data,
            (delivery, &cm, data, start, end, len),
            result,
        ),
        cm.state == State::Established || cm.state == State::FinWait1 || cm.state
            == State::FinWait2,
        start == old(delivery)@.receiver.receive_next_seq_no,
        0 <= k < old(delivery)@.receiver.out_of_order.len(),
        old(delivery)@.receiver.out_of_order[k].start == start.advanced(data@.len() as int),
        forall|i: int|
            0 <= i < k ==> (#[trigger] old(delivery)@.receiver.out_of_order[i]).start != old(
                delivery)@.receiver.out_of_order[k].start,
    ensures
        old(delivery)@.receiver.received.push(data@).push(
            old(delivery)@.receiver.out_of_order[k].data,
        ).is_prefix_of(final(delivery)@.receiver.received),
{
    filled_hole_releases_frame(old(delivery)@.receiver, data@, k);
}

/// Early data is kept, and answered with an ACK that repeats what is expected next.
pub proof fn early_data_is_kept_and_answered(
    delivery: &mut DeliveryState,
    cm: ConnectionManagementState,
    data: Vec<u8>,
    start: SeqNumber,
    end: SeqNumber,
    len: u32,
    result: Result<Option<OutgoingSegment>, Fail>,
)
    requires
        call_ensures(
            DeliveryState::handle_data,
            (delivery, &cm, data, start, end, len),
            result,
        ),
        cm.state == State::Established || cm.state == State::FinWait1 || cm.state
            == State::FinWait2,
        start != old(delivery)@.receiver.receive_next_seq_no,
    ensures
        result is Ok,
        result->Ok_0 is Some,
        belongs_to_connection(result->Ok_0->0@, cm, final(delivery)@),
        result->Ok_0->0@.payload.len() == 0,
        result->Ok_0->0@.header.ack_num == old(delivery)@.receiver.receive_next_seq_no,
        result->Ok_0->0@.header.seq_num == old(delivery)@.sender.send_next_seq_no,
        final(delivery)@.sender == old(delivery)@.sender,
        ({
            let receiver = old(delivery)@.receiver;
            let later = final(delivery)@.receiver;
            &&& later.out_of_order.len() == receiver.out_of_order.len() + 1
            &&& later.out_of_order.drop_last() == receiver.out_of_order
            &&& later.out_of_order.last() == (FrameView { start, end, data: data@ })
            &&& later.received == receiver.received
            &&& later.receive_next_seq_no == receiver.receive_next_seq_no
        }),
{
    early_data_waits(old(delivery)@.receiver, start, end, data@);
    ack_only_acknowledges(
        cm,
        final(delivery)@,
        final(delivery)@.sender.send_next_seq_no,
        Seq::empty(),
    );
}

/// The receiver itself: data in order is appended, early data is kept behind what is kept already.
pub proof fn receiver_keeps_all(
    receiver: &mut Receiver,
    start: SeqNumber,
    data: Vec<u8>,
    keeping: &mut Receiver,
    early: SeqNumber,
    end: SeqNumber,
    early_data: Vec<u8>,
)
    requires
        call_ensures(Receiver::receive_data, (receiver, start, data), ()),
        call_ensures(
            Receiver::store_out_of_order_segment,
            (keeping, early, end, early_data),
            (),
        ),
    ensures
        old(receiver)@.received.push(data@).is_prefix_of(final(receiver)@.received),
        final(keeping)@.out_of_order.len() == old(keeping)@.out_of_order.len() + 1,
        final(keeping)@.out_of_order.drop_last() == old(keeping)@.out_of_order,
        final(keeping)@.out_of_order.last() == (FrameView {
            start: early,
            end,
            data: early_data@,
        }),
        final(keeping)@.received == old(keeping)@.received,
        final(keeping)@.receive_next_seq_no == old(keeping)@.receive_next_seq_no,
{
    data_in_order_is_received(old(receiver)@, data@);
    assert(final(keeping)@.out_of_order.drop_last() =~= old(keeping)@.out_of_order);
}

/// The window that is advertised is all the room that a header can express, and no more.
pub proof fn advertised_window_is_exact(receiver: Receiver, window: u16)
    requires
        receiver.window_scale_shift_bits <= 14,
        call_ensures(Receiver::hdr_window_size, (&receiver,), window),
    ensures
        ({
            let unread = receiver.receive_next_seq_no.steps_from(receiver.reader_next_seq_no);
            let room = if unread <= receiver.buffer_size_bytes {
                receiver.buffer_size_bytes - unread
            } else {
                0
            };
            let unit = pow2(receiver.window_scale_shift_bits as nat) as int;
            &&& window * unit <= room
            &&& window < 0xffff ==> room < (window + 1) * unit
        }),
{
    window_promises_all_room(receiver@);
}

/// A new receiver and a new sender start where they are told to, with nothing received, sent or
/// waiting.
pub proof fn new_halves_are_empty(
    reader_next: SeqNumber,
    receive_next: SeqNumber,
    ack_delay: Duration,
    size: u32,
    scale: u8,
    receiver: Receiver,
    seq_no: SeqNumber,
    sender: Sender,
)
    requires
        call_ensures(Receiver::new, (reader_next, receive_next, ack_delay, size, scale), receiver),
        call_ensures(Sender::new, (seq_no,), sender),
    ensures
        receiver.reader_next_seq_no == reader_next,
        receiver.receive_next_seq_no == receive_next,
        receiver.ack_delay_timeout == ack_delay,
        receiver.buffer_size_bytes == size,
        receiver.window_scale_shift_bits == scale,
        receiver.ack_deadline_time_secs is None,
        receiver@.received.len() == 0,
        receiver@.out_of_order.len() == 0,
        sender.send_unacked == seq_no,
        sender.send_next_seq_no == seq_no,
        sender.sender_fin_seq_no is None,
        sender.retransmit_deadline_time_secs is None,
        sender@.unacked.len() == 0,
        sender@.unsent.len() == 0,
{
    assert(receiver@.reader_next_seq_no == receiver.reader_next_seq_no);
    assert(sender@.send_unacked == sender.send_unacked);
}

} // verus!

//! What sending, probing and retransmitting do.
use crate::congestion_control::{CongestionControl, NoCongestionControl};
use crate::congestion_control_state::{
    CongestionControlState, RetransmitAction, RetransmitEvent,
};
use crate::connection_management_state::ConnectionManagementState;
use crate::ctrlblk::{segment_view, ControlBlock, SendStep};
use crate::delivery_state::DeliveryState;
use crate::fail::FailKind;
use crate::flow_control_state::FlowControlState;
use crate::header::{OutgoingSegment, SegmentView, TcpHeader};
use crate::laws::queue::holds_fin;
use crate::laws::retransmitting::{
    retransmitter_stays_for_fin, retransmitter_stops_behind_fin, retransmitter_waits_for_deadline,
    retransmitting_touches_first_only, timeout_backs_off,
};
use crate::laws::segments::{
    ack_only_acknowledges, belongs_to_connection, data_belongs_to_connection,
    retransmission_belongs_to_connection,
};
use crate::laws::sending::{
    allowance_is_largest, probe_carries_one_byte, sending_notes_what_is_sent,
    sending_uses_what_is_allowed,
};
use crate::laws::sequence::advancing_undoes_difference;
use crate::sender::Sender;
use crate::time::{Duration, Instant};
use vstd::prelude::*;

verus! {

/// What the congestion window of an algorithm comes to, with what limited transmit adds to it.
pub open spec fn congestion_limit<C: CongestionControl>(algorithm: C) -> int {
    let sum = algorithm.cwnd() + algorithm.limited_transmit_cwnd_increase();
    if sum <= u32::MAX {
        sum
    } else {
        u32::MAX as int
    }
}

/// Whether `sent` bytes of a buffer are as many as fit a segment, the send window and a congestion
/// window, given how many are in flight.
pub open spec fn is_most<C: CongestionControl>(
    sent: int,
    len: int,
    flying: int,
    flow_control: FlowControlState,
    algorithm: C,
) -> bool {
    let window = flow_control.send_window as int;
    let mss = flow_control.mss as int;
    let cwnd = congestion_limit(algorithm);
    &&& sent == 0 <==> flying >= window || flying >= cwnd || mss == 0
    &&& sent > 0 ==> {
        &&& sent <= len
        &&& sent <= mss
        &&& flying + sent <= window
        &&& flying + sent <= cwnd
        &&& sent == len || sent == mss || flying + sent == window || flying + sent == cwnd
    }
}

/// What holds of every way in which a buffer can have been sent.
proof fn any_sending<C: CongestionControl>(
    before: ControlBlock<C>,
    after: ControlBlock<C>,
    buffer: Seq<u8>,
    now: Instant,
    left: Seq<u8>,
    segment: Option<SegmentView>,
)
    requires
        buffer.len() > 0,
    ensures
        forall|algorithm: C| #[trigger]
            after.sent_from(before, algorithm, buffer, now, left, segment) ==> {
                let sender = before.delivery@.sender;
                let flying = sender.send_next_seq_no.steps_from(sender.send_unacked);
                let sent = buffer.len() - left.len();
                &&& is_most(sent, buffer.len() as int, flying, before.flow_control, algorithm)
                &&& segment is None <==> sent == 0
                &&& left == buffer.skip(sent)
                &&& segment is None ==> after.delivery@ == before.delivery@
                &&& segment is Some ==> {
                    &&& segment->0.payload == buffer.take(sent)
                    &&& segment->0.header.psh == (left.len() == 0)
                    &&& segment->0.header.seq_num == sender.send_next_seq_no
                    &&& !segment->0.header.fin
                    &&& belongs_to_connection(
                        segment->0,
                        before.connection_management,
                        before.delivery@,
                    )
                    &&& after.delivery@.sender.send_next_seq_no
                        == sender.send_next_seq_no.advanced(sent)
                    &&& after.delivery@.sender.send_unacked == sender.send_unacked
                    &&& after.delivery@.sender.unacked.drop_last() == sender.unacked
                    &&& after.delivery@.sender.unacked.last().bytes == Some(segment->0.payload)
                    &&& after.delivery@.sender.unacked.last().initial_tx == Some(now)
                    &&& after.delivery@.sender.retransmit_deadline is Some
                }
                &&& after.connection_management == before.connection_management
                &&& after.flow_control == before.flow_control
                &&& after.delivery@.receiver == before.delivery@.receiver
            },
{
    assert forall|algorithm: C| #[trigger]
        after.sent_from(before, algorithm, buffer, now, left, segment) implies {
        let sender = before.delivery@.sender;
        let flying = sender.send_next_seq_no.steps_from(sender.send_unacked);
        let sent = buffer.len() - left.len();
        &&& is_most(sent, buffer.len() as int, flying, before.flow_control, algorithm)
        &&& segment is None <==> sent == 0
        &&& left == buffer.skip(sent)
        &&& segment is None ==> after.delivery@ == before.delivery@
        &&& segment is Some ==> {
            &&& segment->0.payload == buffer.take(sent)
            &&& segment->0.header.psh == (left.len() == 0)
            &&& segment->0.header.seq_num == sender.send_next_seq_no
            &&& !segment->0.header.fin
            &&& belongs_to_connection(segment->0, before.connection_management, before.delivery@)
            &&& after.delivery@.sender.send_next_seq_no == sender.send_next_seq_no.advanced(sent)
            &&& after.delivery@.sender.send_unacked == sender.send_unacked
            &&& after.delivery@.sender.unacked.drop_last() == sender.unacked
            &&& after.delivery@.sender.unacked.last().bytes == Some(segment->0.payload)
            &&& after.delivery@.sender.unacked.last().initial_tx == Some(now)
            &&& after.delivery@.sender.retransmit_deadline is Some
        }
        &&& after.connection_management == before.connection_management
        &&& after.flow_control == before.flow_control
        &&& after.delivery@.receiver == before.delivery@.receiver
    } by {
        sending_uses_what_is_allowed(before, after, algorithm, buffer, now, left, segment);
        sending_notes_what_is_sent(before, after, algorithm, buffer, now, left, segment);
        assert(buffer.skip(0) =~= buffer);
        if segment is Some {
            data_belongs_to_connection(
                before,
                after,
                algorithm,
                buffer,
                now,
                left,
                segment->0,
            );
        }
    }
}

/// Sending takes the front off a buffer, as much as the send window, the congestion window and the
/// segment size allow, and returns it as a segment of the connection at SND.NXT. It is told to be
/// pushed if nothing is left, and is kept for retransmission.
pub proof fn segment_is_filled<C: CongestionControl>(
    cb: &mut ControlBlock<C>,
    now: Instant,
    buffer: &mut Vec<u8>,
    sent: (usize, Option<OutgoingSegment>),
)
    requires
        old(buffer)@.len() > 0,
        call_ensures(ControlBlock::<C>::send_segment, (cb, now, buffer), sent),
    ensures
        ({
            let sender = old(cb).delivery@.sender;
            let later = final(cb).delivery@.sender;
            let flying = sender.send_next_seq_no.steps_from(sender.send_unacked);
            &&& exists|algorithm: C| #[trigger]
                is_most(
                    sent.0 as int,
                    old(buffer)@.len() as int,
                    flying,
                    old(cb).flow_control,
                    algorithm,
                )
            &&& final(buffer)@ == old(buffer)@.skip(sent.0 as int)
            &&& sent.1 is None <==> sent.0 == 0
            &&& sent.1 is Some ==> {
                let segment = sent.1->0@;
                &&& segment.payload == old(buffer)@.take(sent.0 as int)
                &&& segment.header.psh == (final(buffer)@.len() == 0)
                &&& segment.header.seq_num == sender.send_next_seq_no
                &&& belongs_to_connection(
                    segment,
                    old(cb).connection_management,
                    old(cb).delivery@,
                )
                &&& later.send_next_seq_no == sender.send_next_seq_no.advanced(sent.0 as int)
                &&& later.unacked.drop_last() == sender.unacked
                &&& later.unacked.last().bytes == Some(segment.payload)
            }
            &&& sent.1 is None ==> final(cb).delivery@ == old(cb).delivery@
        }),
{
    any_sending(
        *old(cb),
        *final(cb),
        old(buffer)@,
        now,
        final(buffer)@,
        segment_view(sent.1),
    );
}

/// Without congestion control a segment holds the whole buffer, unless the segment size or the
/// peer's window is smaller.
pub proof fn only_peer_limits_segment(
    cb: &mut ControlBlock<NoCongestionControl>,
    now: Instant,
    buffer: &mut Vec<u8>,
    sent: (usize, Option<OutgoingSegment>),
)
    requires
        old(buffer)@.len() > 0,
        call_ensures(ControlBlock::<NoCongestionControl>::send_segment, (cb, now, buffer), sent),
    ensures
        ({
            let sender = old(cb).delivery@.sender;
            let flying = sender.send_next_seq_no.steps_from(sender.send_unacked);
            let window = old(cb).flow_control.send_window as int;
            let mss = old(cb).flow_control.mss as int;
            let len = old(buffer)@.len() as int;
            &&& flying >= window ==> sent.0 == 0
            &&& flying < window ==> {
                &&& sent.0 <= len && sent.0 <= mss && sent.0 <= window - flying
                &&& sent.0 == len || sent.0 == mss || sent.0 == window - flying
            }
        }),
{
    any_sending(
        *old(cb),
        *final(cb),
        old(buffer)@,
        now,
        final(buffer)@,
        segment_view(sent.1),
    );
    let sender = old(cb).delivery@.sender;
    advancing_undoes_difference(sender.send_unacked, sender.send_next_seq_no, 0);
}

/// One step of sending a buffer: a window probe of one byte exactly while the peer's window is
/// closed, and a filled segment otherwise. The step is finished exactly if nothing is left.
pub proof fn send_step_follows_window<C: CongestionControl>(
    cb: &mut ControlBlock<C>,
    now: Instant,
    buffer: &mut Vec<u8>,
    step: SendStep,
)
    requires
        old(buffer)@.len() > 0,
        call_ensures(ControlBlock::<C>::send_buffer, (cb, now, buffer), step),
    ensures
        step is WindowProbe <==> old(cb).flow_control.send_window == 0,
        ({
            let sender = old(cb).delivery@.sender;
            let later = final(cb).delivery@.sender;
            let sent = old(buffer)@.len() - final(buffer)@.len();
            let flying = sender.send_next_seq_no.steps_from(sender.send_unacked);
            &&& final(buffer)@ == old(buffer)@.skip(sent)
            &&& later.send_next_seq_no == sender.send_next_seq_no.advanced(sent)
            &&& step is WindowProbe ==> {
                &&& sent == 1
                &&& step->probe@.payload == old(buffer)@.take(1)
                &&& step->probe@.header.seq_num == sender.send_next_seq_no
                &&& step->WindowProbe_finished == (final(buffer)@.len() == 0)
                &&& final(cb).congestion_control == old(cb).congestion_control
            }
            &&& step is Segment ==> {
                &&& step->Segment_finished == (final(buffer)@.len() == 0)
                &&& exists|algorithm: C| #[trigger]
                    is_most(
                        sent,
                        old(buffer)@.len() as int,
                        flying,
                        old(cb).flow_control,
                        algorithm,
                    )
                &&& step->segment is None <==> sent == 0
                &&& step->segment is Some ==> {
                    &&& step->segment->0@.payload == old(buffer)@.take(sent)
                    &&& step->segment->0@.header.seq_num == sender.send_next_seq_no
                }
            }
        }),
{
    if old(cb).flow_control.send_window == 0 {
        probe_carries_one_byte(
            *old(cb),
            *final(cb),
            old(buffer)@,
            now,
            final(buffer)@,
            step->probe@,
        );
    } else {
        any_sending(
            *old(cb),
            *final(cb),
            old(buffer)@,
            now,
            final(buffer)@,
            segment_view(step->segment),
        );
        let sender = old(cb).delivery@.sender;
        advancing_undoes_difference(sender.send_next_seq_no, sender.send_next_seq_no, 0);
    }
}

/// A segment takes as much of a buffer as it may hold, and nothing if it may hold nothing.
pub proof fn frame_size_is_used(
    delivery: &mut DeliveryState,
    cm: ConnectionManagementState,
    rto: Duration,
    now: Instant,
    buffer: &mut Vec<u8>,
    max: usize,
    segment: Option<OutgoingSegment>,
)
    requires
        call_ensures(
            DeliveryState::transmit_segment,
            (delivery, &cm, rto, now, buffer, max),
            segment,
        ),
    ensures
        segment is None <==> max == 0,
        max == 0 ==> final(buffer)@ == old(buffer)@ && final(delivery)@ == old(delivery)@,
        max > 0 ==> {
            let payload = segment->0@.payload;
            &&& payload + final(buffer)@ == old(buffer)@
            &&& payload.len() <= max
            &&& final(buffer)@.len() > 0 ==> payload.len() == max
            &&& segment->0@.header.psh == (final(buffer)@.len() == 0)
            &&& segment->0@.header.seq_num == old(delivery)@.sender.send_next_seq_no
            &&& final(delivery)@.sender.send_next_seq_no == old(
                delivery)@.sender.send_next_seq_no.advanced(payload.len() as int)
            &&& final(delivery)@.receiver == old(delivery)@.receiver
        },
{
    if max > 0 {
        let len = old(buffer)@.len();
        let n = if len <= max {
            len as int
        } else {
            max as int
        };
        assert(old(buffer)@.take(n) + old(buffer)@.skip(n) =~= old(buffer)@);
        assert(segment->0@.payload =~= old(buffer)@.take(n));
        assert(final(buffer)@ =~= old(buffer)@.skip(n));
    }
}

/// How much may be sent at once is the most that fits, by the windows as the algorithm gives them
/// after it has been told of the check.
pub proof fn open_window_is_most<C: CongestionControl>(
    state: &mut CongestionControlState<C>,
    delivery: DeliveryState,
    flow_control: FlowControlState,
    size: usize,
)
    requires
        call_ensures(
            CongestionControlState::<C>::get_open_window_size_bytes,
            (state, &delivery, &flow_control),
            size,
        ),
    ensures
        ({
            let sender = delivery@.sender;
            let flying = sender.send_next_seq_no.steps_from(sender.send_unacked);
            let window = flow_control.send_window as int;
            let mss = flow_control.mss as int;
            let cwnd = congestion_limit(final(state).cc_algorithm);
            &&& flying >= window || flying >= cwnd ==> size == 0
            &&& flying < window && flying < cwnd ==> {
                &&& size <= mss && flying + size <= window && flying + size <= cwnd
                &&& size == mss || flying + size == window || flying + size == cwnd
            }
            &&& final(state).rto_calculator == old(state).rto_calculator
        }),
{
    let sender = delivery@.sender;
    advancing_undoes_difference(sender.send_unacked, sender.send_next_seq_no, 0);
    allowance_is_largest(final(state).cc_algorithm, sender.in_flight(), flow_control);
}

/// The retransmitter stops only for a change, and only once SND.UNA is behind our FIN: never while
/// the FIN, and with it possibly data, is unacknowledged on a well-formed connection. While
/// SND.UNA is at the FIN or before it, a change has it look again.
pub proof fn retransmitter_stops_late<C: CongestionControl>(
    cb: &mut ControlBlock<C>,
    event: RetransmitEvent,
    action: RetransmitAction,
)
    requires
        call_ensures(
            CongestionControlState::<C>::background_retransmitter_cc,
            (cb, event),
            action,
        ),
    ensures
        ({
            let sender = old(cb).delivery@.sender;
            &&& action is Stop <==> event is SomethingChanged && sender.sender_fin_seq_no is Some
                && 0 < sender.send_unacked.steps_from(sender.sender_fin_seq_no->0) <= 0x8000_0000
            &&& action is Stop ==> action->Stop_0.kind == FailKind::ConnectionReset
            &&& old(cb).wf() && holds_fin(sender.unacked) ==> !(action is Stop)
            &&& event is SomethingChanged && !(action is Stop) ==> action
                == RetransmitAction::Resume
            &&& event is SomethingChanged ==> *final(cb) == *old(cb)
        }),
        final(cb).delivery == old(cb).delivery,
        final(cb).flow_control == old(cb).flow_control,
        final(cb).connection_management == old(cb).connection_management,
{
    retransmitter_stops_behind_fin(*old(cb), event, *final(cb), action);
    if old(cb).wf() && holds_fin(old(cb).delivery@.sender.unacked) {
        retransmitter_stays_for_fin(*old(cb), event, *final(cb), action);
    }
}

/// A timeout has the oldest segment sent again and doubles the timeout. A raised fast retransmit
/// flag has it sent again without that, and is lowered. Otherwise the retransmitter waits for the
/// deadline.
pub proof fn losses_are_answered<C: CongestionControl>(
    late: &mut ControlBlock<C>,
    after_timeout: RetransmitAction,
    looked_at: &mut ControlBlock<C>,
    after_look: RetransmitAction,
)
    requires
        old(late).congestion_control.rto_calculator.wf(),
        call_ensures(
            CongestionControlState::<C>::background_retransmitter_cc,
            (late, RetransmitEvent::DeadlinePassed),
            after_timeout,
        ),
        call_ensures(
            CongestionControlState::<C>::background_retransmitter_cc,
            (looked_at, RetransmitEvent::Resumed),
            after_look,
        ),
    ensures
        after_timeout == RetransmitAction::Retransmit,
        ({
            let doubled = 2 * old(late).congestion_control.rto_calculator.timeout.nanos;
            final(late).congestion_control.rto_calculator.timeout.nanos == if doubled
                <= 60_000_000_000 {
                doubled
            } else {
                60_000_000_000
            }
        }),
        old(looked_at).congestion_control.cc_algorithm.retransmit_now() <==> after_look
            == RetransmitAction::Retransmit,
        !final(looked_at).congestion_control.cc_algorithm.retransmit_now(),
        !old(looked_at).congestion_control.cc_algorithm.retransmit_now() ==> after_look == (
        RetransmitAction::Wait {
            deadline: old(looked_at).delivery@.sender.retransmit_deadline,
        }),
        final(looked_at).congestion_control.rto_calculator == old(
            looked_at).congestion_control.rto_calculator,
{
    timeout_backs_off(*old(late), *final(late), after_timeout);
    retransmitter_waits_for_deadline(*old(looked_at), *final(looked_at), after_look);
}

/// What is sent again is the oldest unacknowledged segment, at SND.UNA. Nothing new is taken note
/// of, and the timer runs anew.
pub proof fn oldest_segment_is_repeated(
    delivery: &mut DeliveryState,
    cm: ConnectionManagementState,
    rto: Duration,
    now: Instant,
    segment: Option<OutgoingSegment>,
)
    requires
        call_ensures(DeliveryState::retransmit, (delivery, &cm, rto, now), segment),
    ensures
        ({
            let sender = old(delivery)@.sender;
            let later = final(delivery)@.sender;
            &&& segment is Some <==> sender.unacked.len() > 0
            &&& segment is Some ==> {
                &&& belongs_to_connection(segment->0@, cm, old(delivery)@)
                &&& segment->0@.header.seq_num == sender.send_unacked
                &&& segment->0@.header.fin <==> sender.unacked[0].bytes is None
                &&& sender.unacked[0].bytes is Some ==> segment->0@.payload
                    == sender.unacked[0].bytes->0
                &&& later.unacked.len() == sender.unacked.len()
                &&& later.unacked[0].bytes == sender.unacked[0].bytes
                &&& later.unacked[0].initial_tx is None
                &&& later.unacked.skip(1) == sender.unacked.skip(1)
                &&& now.nanos + rto.nanos <= u64::MAX ==> later.retransmit_deadline == Some(
                    Instant { nanos: (now.nanos + rto.nanos) as u64 },
                )
            }
            &&& segment is None ==> later.retransmit_deadline is None
            &&& later.send_unacked == sender.send_unacked
            &&& later.send_next_seq_no == sender.send_next_seq_no
            &&& final(delivery)@.receiver == old(delivery)@.receiver
        }),
{
    retransmission_belongs_to_connection(cm, old(delivery)@);
    if old(delivery)@.sender.unacked.len() > 0 {
        retransmitting_touches_first_only(old(delivery)@.sender, rto, now);
    }
}

/// Segments leave as they were made up. Only one that has been sent cancels a delayed ACK.
pub proof fn segments_leave_as_made_up(
    delivery: DeliveryState,
    cm: ConnectionManagementState,
    header: TcpHeader,
    body: Option<Vec<u8>>,
    segment: OutgoingSegment,
    ack: OutgoingSegment,
    emitting: &mut DeliveryState,
    sent: bool,
)
    requires
        call_ensures(DeliveryState::emit, (&delivery, &cm, header, body), segment),
        call_ensures(DeliveryState::send_ack, (&delivery, &cm), ack),
        call_ensures(DeliveryState::on_emit_result, (emitting, sent), ()),
    ensures
        segment@.header == header@,
        segment@.source == cm.local.ip,
        segment@.destination == cm.remote.ip,
        body is Some ==> segment@.payload == body->0@,
        body is None ==> segment@.payload.len() == 0,
        belongs_to_connection(ack@, cm, delivery@),
        ack@.payload.len() == 0,
        !ack@.header.fin && !ack@.header.psh,
        ack@.header.seq_num == delivery@.sender.send_next_seq_no,
        sent ==> final(emitting)@.receiver.ack_deadline is None,
        !sent ==> final(emitting)@ == old(emitting)@,
        final(emitting)@.sender == old(emitting)@.sender,
        final(emitting)@.receiver.received == old(emitting)@.receiver.received,
        final(emitting)@.receiver.receive_next_seq_no == old(
            emitting)@.receiver.receive_next_seq_no,
{
    ack_only_acknowledges(cm, delivery@, delivery@.sender.send_next_seq_no, Seq::empty());
}

/// Buffers that wait to be sent leave in the order in which they came.
pub proof fn unsent_buffers_leave_in_order(
    pushing: &mut Sender,
    buffer: Vec<u8>,
    popping: &mut Sender,
    popped: Option<Vec<u8>>,
)
    requires
        call_ensures(Sender::push_unsent, (pushing, buffer), ()),
        call_ensures(Sender::pop_unsent, (popping,), popped),
    ensures
        final(pushing)@.unsent.len() == old(pushing)@.unsent.len() + 1,
        final(pushing)@.unsent.drop_last() == old(pushing)@.unsent,
        final(pushing)@.unsent.last() == buffer@,
        final(pushing)@.unacked == old(pushing)@.unacked,
        final(pushing)@.send_next_seq_no == old(pushing)@.send_next_seq_no,
        popped is Some <==> old(popping)@.unsent.len() > 0,
        popped is Some ==> seq![popped->0@] + final(popping)@.unsent == old(popping)@.unsent,
        popped is None ==> final(popping)@ == old(popping)@,
        final(popping)@.unacked == old(popping)@.unacked,
        final(popping)@.send_next_seq_no == old(popping)@.send_next_seq_no,
{
    assert(final(pushing)@.unsent.drop_last() =~= old(pushing)@.unsent);
    if popped is Some {
        assert(seq![popped->0@] + final(popping)@.unsent =~= old(popping)@.unsent);
    }
}

} // verus!

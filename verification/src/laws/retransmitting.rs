//! Laws of retransmission and of window probes.
use crate::congestion_control::CongestionControl;
use crate::congestion_control_state::{
    retransmitter_step, samples, RetransmitAction, RetransmitEvent,
};
use crate::connection_management_state::ConnectionManagementState;
use crate::ctrlblk::ControlBlock;
use crate::delivery_state::{probe_timeout, DeliveryView};
use crate::laws::queue::{
    acknowledging_shortens, holds_fin, is_send_queue, span_covers_segments,
};
use crate::laws::sequence::{advancing_undoes_difference, difference_counts_steps};
use crate::sender::{remaining_after, total_span, SenderView};
use crate::seq_number::SeqNumber;
use crate::time::{Duration, Instant};
use vstd::prelude::*;

verus! {

/// A raised fast retransmit flag is answered once, whatever the algorithm: when the
/// retransmitter looks at the connection again, it waits. In between ordered delivery may have
/// sent the segment again.
pub proof fn fast_retransmit_is_answered_once<C: CongestionControl>(
    raised: ControlBlock<C>,
    answered: ControlBlock<C>,
    first: RetransmitAction,
    resumed: ControlBlock<C>,
    waiting: ControlBlock<C>,
    second: RetransmitAction,
)
    requires
        raised.congestion_control.cc_algorithm.retransmit_now(),
        retransmitter_step(raised, RetransmitEvent::Resumed, answered, first),
        resumed.congestion_control == answered.congestion_control,
        retransmitter_step(resumed, RetransmitEvent::Resumed, waiting, second),
    ensures
        first == RetransmitAction::Retransmit,
        second == (RetransmitAction::Wait {
            deadline: resumed.delivery@.sender.retransmit_deadline,
        }),
        waiting == resumed,
{
}

/// The retransmitter keeps a connection well-formed.
pub proof fn retransmitter_keeps_wf<C: CongestionControl>(
    before: ControlBlock<C>,
    event: RetransmitEvent,
    after: ControlBlock<C>,
    action: RetransmitAction,
)
    requires
        before.wf(),
        retransmitter_step(before, event, after, action),
    ensures
        after.wf(),
{
}

/// Sending a segment again keeps a sender well-formed, and leaves what is in flight, what it
/// consists of and where it starts as they are.
pub proof fn retransmitting_keeps_wf(sender: SenderView, rto: Duration, now: Instant)
    requires
        sender.wf(),
    ensures
        ({
            let later = sender.retransmitted(rto, now);
            &&& later.wf()
            &&& later.send_unacked == sender.send_unacked
            &&& later.in_flight() == sender.in_flight()
            &&& later.unacked.len() == sender.unacked.len()
            &&& forall|i: int|
                0 <= i < sender.unacked.len() ==> #[trigger] later.unacked[i].bytes
                    == sender.unacked[i].bytes
        }),
{
    let later = sender.retransmitted(rto, now);
    if sender.unacked.len() > 0 {
        assert(later.unacked.drop_first() =~= sender.unacked.drop_first());
        assert(total_span(later.unacked) == total_span(sender.unacked));
        assert forall|i: int| 0 <= i < later.unacked.len() implies {
            &&& #[trigger] later.unacked[i].span() == sender.unacked[i].span()
            &&& later.unacked[i].is_fin() == sender.unacked[i].is_fin()
        } by {
            if i > 0 {
                assert(later.unacked[i] == sender.unacked[i]);
            }
        }
    }
}

/// After a segment has been sent again, the next deadline lies a full timeout ahead, and there
/// is one exactly if something is unacknowledged.
pub proof fn retransmitting_restarts_timer(sender: SenderView, rto: Duration, now: Instant)
    ensures
        sender.retransmitted(rto, now).retransmit_deadline == if sender.unacked.len() == 0 {
            None
        } else {
            Some(now.later_by(rto))
        },
{
}

/// A segment that has been sent again yields no sample of the round-trip time, since its
/// acknowledgement could be for either transmission.
pub proof fn retransmitted_segment_yields_no_sample(
    sender: SenderView,
    rto: Duration,
    now: Instant,
    acked: int,
    later: Instant,
)
    requires
        sender.unacked.len() > 0,
        acked <= sender.unacked[0].span(),
    ensures
        samples(sender.retransmitted(rto, now).unacked, acked, later) == Seq::<Duration>::empty(),
{
    let queue = sender.retransmitted(rto, now).unacked;
    assert(samples(queue.drop_first(), acked - queue[0].span(), later) =~= Seq::empty());
    assert(samples(queue, acked, later) =~= Seq::empty());
}

/// What is sent again is the start of what is unacknowledged, at SND.UNA.
pub proof fn retransmission_starts_at_unacked(
    delivery: DeliveryView,
    cm: ConnectionManagementState,
)
    requires
        delivery.sender.unacked.len() > 0,
    ensures
        delivery.retransmission(cm) is Some,
        delivery.retransmission(cm)->0.header.seq_num == delivery.sender.send_unacked,
        delivery.retransmission(cm)->0.header.fin == delivery.sender.unacked[0].is_fin(),
        delivery.sender.unacked[0].bytes is Some ==> delivery.retransmission(cm)->0.payload
            == delivery.sender.unacked[0].bytes->0,
{
}

/// Window probes are repeated less and less often.
pub proof fn probe_waits_grow(last: Duration)
    ensures
        probe_timeout(Some(last)).nanos >= last.nanos,
        0 < last.nanos < u64::MAX ==> probe_timeout(Some(last)).nanos > last.nanos,
        probe_timeout(None).nanos > 0,
{
}

/// As long as our FIN is unacknowledged, and with it possibly data in front of it, the
/// retransmitter does not stop.
pub proof fn retransmitter_stays_for_fin<C: CongestionControl>(
    before: ControlBlock<C>,
    event: RetransmitEvent,
    after: ControlBlock<C>,
    action: RetransmitAction,
)
    requires
        before.wf(),
        holds_fin(before.delivery@.sender.unacked),
        retransmitter_step(before, event, after, action),
    ensures
        !(action is Stop),
{
    let sender = before.delivery@.sender;
    let i = choose|i: int| 0 <= i < sender.unacked.len() && #[trigger] sender.unacked[i].is_fin();
    assert(sender.unacked[i].is_fin());
    assert(is_send_queue(sender.unacked));
    span_covers_segments(sender.unacked);
    let fin = sender.sender_fin_seq_no->0;
    let flying = sender.in_flight();
    assert(flying > 0);
    advancing_undoes_difference(fin, sender.send_next_seq_no, 1);
    difference_counts_steps(fin, sender.send_unacked);
    difference_counts_steps(fin, sender.send_next_seq_no);
    difference_counts_steps(sender.send_unacked, sender.send_next_seq_no);
}

/// The retransmitter stops exactly if something has changed, a FIN is noted, and SND.UNA is ahead
/// of it by at most half of the sequence space. While SND.UNA is at the FIN or before it, the
/// retransmitter goes on.
pub proof fn retransmitter_stops_behind_fin<C: CongestionControl>(
    before: ControlBlock<C>,
    event: RetransmitEvent,
    after: ControlBlock<C>,
    action: RetransmitAction,
)
    requires
        retransmitter_step(before, event, after, action),
    ensures
        ({
            let sender = before.delivery@.sender;
            action is Stop <==> event is SomethingChanged && sender.sender_fin_seq_no is Some && 0
                < sender.send_unacked.steps_from(sender.sender_fin_seq_no->0) <= 0x8000_0000
        }),
        action is Stop ==> after == before,
        event is SomethingChanged && !(action is Stop) ==> action == RetransmitAction::Resume
            && after == before,
{
}

/// A FIN that is noted has been sent, nothing has been sent behind it, and as long as anything is
/// unacknowledged the FIN is.
pub open spec fn fin_is_in_place(sender: SenderView) -> bool {
    sender.sender_fin_seq_no is Some ==> {
        &&& sender.sender_fin_seq_no->0.advanced(1) == sender.send_next_seq_no
        &&& sender.unacked.len() > 0 ==> sender.unacked.last().is_fin()
    }
}

/// The retransmitter stops only when nothing is left to retransmit, and once everything up to our
/// FIN has been acknowledged, the next change stops it.
pub proof fn retransmitter_stops_when_all_is_acked<C: CongestionControl>(
    before: ControlBlock<C>,
    event: RetransmitEvent,
    after: ControlBlock<C>,
    action: RetransmitAction,
)
    requires
        before.wf(),
        fin_is_in_place(before.delivery@.sender),
        retransmitter_step(before, event, after, action),
    ensures
        ({
            let sender = before.delivery@.sender;
            action is Stop <==> {
                &&& event is SomethingChanged
                &&& sender.sender_fin_seq_no is Some
                &&& sender.unacked.len() == 0
                &&& sender.send_unacked == sender.send_next_seq_no
            }
        }),
{
    let sender = before.delivery@.sender;
    if sender.sender_fin_seq_no is Some {
        let fin = sender.sender_fin_seq_no->0;
        advancing_undoes_difference(fin, sender.send_next_seq_no, 1);
        if sender.unacked.len() > 0 {
            let i = sender.unacked.len() - 1;
            assert(sender.unacked[i].is_fin());
            assert(holds_fin(sender.unacked));
            retransmitter_stays_for_fin(before, event, after, action);
        } else {
            assert(total_span(sender.unacked) == 0);
            difference_counts_steps(sender.send_unacked, sender.send_next_seq_no);
        }
    }
}

/// A noted FIN stays in place through acknowledgements and retransmissions, and a new connection
/// has none.
pub proof fn fin_stays_in_place(
    sender: SenderView,
    ack_num: SeqNumber,
    rto: Duration,
    now: Instant,
)
    requires
        sender.wf(),
        sender.can_be_acked(ack_num),
        fin_is_in_place(sender),
    ensures
        fin_is_in_place(sender.acknowledged(ack_num, rto, now)),
        fin_is_in_place(sender.retransmitted(rto, now)),
        fin_is_in_place(SenderView::fresh(ack_num)),
{
    if sender.sender_fin_seq_no is Some && sender.unacked.len() > 0 {
        assert(is_send_queue(sender.unacked));
        assert(sender.unacked[sender.unacked.len() - 1].is_fin());
        assert(holds_fin(sender.unacked));
        let acked = sender.newly_acked(ack_num);
        acknowledging_shortens(sender.unacked, acked);
        let left = remaining_after(sender.unacked, acked);
        if left.len() > 0 {
            span_covers_segments(left);
            assert(holds_fin(left));
            let i = choose|i: int| 0 <= i < left.len() && #[trigger] left[i].is_fin();
            assert(left.last().is_fin());
        }
        let later = sender.retransmitted(rto, now).unacked;
        assert(later.last().bytes == sender.unacked.last().bytes);
    }
}

/// A timeout doubles the retransmission timeout, up to a minute, has the oldest segment sent
/// again, and leaves the rest of the connection alone.
pub proof fn timeout_backs_off<C: CongestionControl>(
    before: ControlBlock<C>,
    after: ControlBlock<C>,
    action: RetransmitAction,
)
    requires
        retransmitter_step(before, RetransmitEvent::DeadlinePassed, after, action),
        before.congestion_control.rto_calculator.wf(),
    ensures
        action == RetransmitAction::Retransmit,
        ({
            let doubled = 2 * before.congestion_control.rto_calculator.timeout.nanos;
            after.congestion_control.rto_calculator.timeout.nanos == if doubled
                <= 60_000_000_000 {
                doubled
            } else {
                60_000_000_000
            }
        }),
        after.congestion_control.rto_calculator.estimate
            == before.congestion_control.rto_calculator.estimate,
        after.delivery == before.delivery,
        after.flow_control == before.flow_control,
        after.connection_management == before.connection_management,
{
}

/// While nothing is to be done, the retransmitter waits for the deadline of the sender, with none
/// if there is none.
pub proof fn retransmitter_waits_for_deadline<C: CongestionControl>(
    before: ControlBlock<C>,
    after: ControlBlock<C>,
    action: RetransmitAction,
)
    requires
        retransmitter_step(before, RetransmitEvent::Resumed, after, action),
    ensures
        before.congestion_control.cc_algorithm.retransmit_now() <==> action
            == RetransmitAction::Retransmit,
        !before.congestion_control.cc_algorithm.retransmit_now() ==> after == before && action == (
        RetransmitAction::Wait { deadline: before.delivery@.sender.retransmit_deadline }),
        after.congestion_control.rto_calculator == before.congestion_control.rto_calculator,
        after.delivery == before.delivery,
{
}

/// Sending a segment again changes nothing of a sender but that the segment is no sample any more
/// and that the timer runs from now.
pub proof fn retransmitting_touches_first_only(sender: SenderView, rto: Duration, now: Instant)
    requires
        sender.unacked.len() > 0,
    ensures
        ({
            let later = sender.retransmitted(rto, now);
            &&& later.send_unacked == sender.send_unacked
            &&& later.send_next_seq_no == sender.send_next_seq_no
            &&& later.sender_fin_seq_no == sender.sender_fin_seq_no
            &&& later.unsent == sender.unsent
            &&& later.unacked.len() == sender.unacked.len()
            &&& later.unacked[0].bytes == sender.unacked[0].bytes
            &&& later.unacked[0].initial_tx is None
            &&& later.unacked.skip(1) == sender.unacked.skip(1)
            &&& now.nanos + rto.nanos <= u64::MAX ==> later.retransmit_deadline == Some(
                Instant { nanos: (now.nanos + rto.nanos) as u64 },
            )
        }),
{
    assert(sender.retransmitted(rto, now).unacked.skip(1) =~= sender.unacked.skip(1));
}

/// The wait for an answer to a window probe is a second at first, and twice as long each time.
pub proof fn probe_waits_double(last: Duration)
    ensures
        probe_timeout(None).nanos == 1_000_000_000,
        2 * last.nanos <= u64::MAX ==> probe_timeout(Some(last)).nanos == 2 * last.nanos,
        2 * last.nanos > u64::MAX ==> probe_timeout(Some(last)).nanos == u64::MAX,
{
}

} // verus!

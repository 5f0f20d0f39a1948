//! Laws of acknowledgement processing.
use crate::congestion_control::CongestionControl;
use crate::congestion_control_state::{fin_is_acked, samples};
use crate::connection_management_state::{
    awaits_fin_ack, left_at_fin, state_after_fin_acked, ConnectionManagementState,
};
use crate::ctrlblk::{ControlBlock, State};
use crate::flow_control_state::scaled_window_is_bounded;
use crate::header::HeaderView;
use crate::laws::queue::{
    acknowledgements_add_up, acknowledging_cuts_contents, acknowledging_shortens, contents,
    fin_is_reached_last, holds_fin, is_send_queue, overshoot_shows_at_fin,
};
use crate::laws::sequence::{advancing_undoes_difference, ways_split};
use crate::laws::timeout::timeout_stays_in_range;
use crate::sender::{total_span, SenderView, UnackedView};
use crate::seq_number::SeqNumber;
use crate::time::{Duration, Instant};
use vstd::prelude::*;

verus! {

/// What well-formedness of a sender says about its queue and a new acknowledgement.
proof fn queue_facts(sender: SenderView, ack_num: SeqNumber)
    requires
        sender.wf(),
        sender.can_be_acked(ack_num),
    ensures
        is_send_queue(sender.unacked),
        0 <= sender.newly_acked(ack_num) <= sender.in_flight(),
        sender.newly_acked(ack_num) == sender.in_flight() && sender.send_unacked.before(ack_num)
            ==> ack_num == sender.send_next_seq_no,
        sender.send_unacked.before(ack_num) ==> sender.send_next_seq_no.steps_from(ack_num)
            == sender.in_flight() - sender.newly_acked(ack_num),
        holds_fin(sender.unacked) ==> sender.in_flight() > 0 && sender.sender_fin_seq_no is Some
            && sender.sender_fin_seq_no->0.advanced(1) == sender.send_next_seq_no,
{
    assert(is_send_queue(sender.unacked));
    advancing_undoes_difference(sender.send_unacked, ack_num, 0);
    advancing_undoes_difference(sender.send_unacked, sender.send_next_seq_no, 0);
    if sender.send_unacked.before(ack_num) {
        ways_split(sender.send_unacked, ack_num, sender.send_next_seq_no);
    }
    if holds_fin(sender.unacked) {
        let i = choose|i: int|
            0 <= i < sender.unacked.len() && #[trigger] sender.unacked[i].is_fin();
        crate::laws::queue::span_covers_segments(sender.unacked);
    }
}

/// On a well-formed connection every acknowledgement of something that has been sent can be
/// processed.
pub proof fn acceptable_ack_fits<C: CongestionControl>(cb: ControlBlock<C>, header: HeaderView)
    requires
        cb.wf(),
        cb.delivery@.sender.can_be_acked(header.ack_num),
    ensures
        cb.ack_fits(header),
{
    let sender = cb.delivery@.sender;
    queue_facts(sender, header.ack_num);
    fin_is_reached_last(sender.unacked, sender.newly_acked(header.ack_num));
    if ConnectionManagementState::reaches_fin(sender, header.ack_num) {
        let i = choose|i: int|
            0 <= i < sender.unacked.len() && #[trigger] sender.unacked[i].is_fin();
        assert(sender.newly_acked(header.ack_num) > 0);
    }
}

/// Processing an acknowledgement keeps a connection well-formed.
pub proof fn acknowledging_keeps_wf<C: CongestionControl>(
    before: ControlBlock<C>,
    after: ControlBlock<C>,
    header: HeaderView,
    now: Instant,
)
    requires
        before.wf(),
        before.delivery@.sender.can_be_acked(header.ack_num),
        after.acknowledged_from(before, header, now),
    ensures
        after.wf(),
{
    let sender = before.delivery@.sender;
    let later = after.delivery@.sender;
    let acked = sender.newly_acked(header.ack_num);
    queue_facts(sender, header.ack_num);
    acknowledging_shortens(sender.unacked, acked);
    fin_is_reached_last(sender.unacked, acked);
    scaled_window_is_bounded(
        header.window_size,
        before.flow_control.send_window_scale_shift_bits,
    );
    assert(after.flow_control.wf());
    timeout_stays_in_range(
        before.congestion_control.rto_calculator,
        samples(sender.unacked, acked, now),
    );
    if sender.send_unacked.before(header.ack_num) {
        assert(later.in_flight() == sender.in_flight() - acked);
    } else {
        assert(later == sender);
    }
    assert forall|i: int| 0 <= i < later.unacked.len() && #[trigger] later.unacked[i].is_fin()
        implies {
        &&& i == later.unacked.len() - 1
        &&& later.sender_fin_seq_no is Some
        &&& later.sender_fin_seq_no->0.advanced(1) == later.send_next_seq_no
        &&& awaits_fin_ack(after.connection_management.state)
    } by {
        assert(holds_fin(later.unacked));
        assert(holds_fin(sender.unacked));
        let k = choose|k: int|
            0 <= k < sender.unacked.len() && #[trigger] sender.unacked[k].is_fin();
    }
}

/// The state of a connection moves on exactly when our FIN leaves the queue, in the same step.
/// From then on the FIN counts as acknowledged for the retransmitter. No other acknowledgement
/// changes the state.
pub proof fn acked_fin_moves_state<C: CongestionControl>(
    before: ControlBlock<C>,
    after: ControlBlock<C>,
    header: HeaderView,
    now: Instant,
)
    requires
        before.wf(),
        before.delivery@.sender.can_be_acked(header.ack_num),
        after.acknowledged_from(before, header, now),
    ensures
        holds_fin(before.delivery@.sender.unacked) && !holds_fin(after.delivery@.sender.unacked)
            <==> after.connection_management.state != before.connection_management.state,
        after.connection_management.state != before.connection_management.state ==> {
            &&& awaits_fin_ack(before.connection_management.state)
            &&& after.connection_management.state == state_after_fin_acked(
                before.connection_management.state,
            )
            &&& fin_is_acked(after.delivery@.sender)
        },
{
    let sender = before.delivery@.sender;
    let acked = sender.newly_acked(header.ack_num);
    queue_facts(sender, header.ack_num);
    acknowledging_shortens(sender.unacked, acked);
    fin_is_reached_last(sender.unacked, acked);
    acceptable_ack_fits(before, header);
}

/// An acknowledgement of nothing new changes at most the send window.
pub proof fn duplicate_ack_changes_window_only<C: CongestionControl>(
    before: ControlBlock<C>,
    after: ControlBlock<C>,
    header: HeaderView,
    now: Instant,
)
    requires
        !before.delivery@.sender.send_unacked.before(header.ack_num),
        after.acknowledged_from(before, header, now),
    ensures
        after.connection_management == before.connection_management,
        after.delivery@ == before.delivery@,
        after.congestion_control.rto_calculator == before.congestion_control.rto_calculator,
        after.congestion_control.cc_algorithm == before.congestion_control.cc_algorithm,
        after.flow_control == before.flow_control.updated(header),
{
    let sender = before.delivery@.sender;
    assert(left_at_fin(sender.unacked, 0) is None);
    assert(samples(sender.unacked, 0, now) =~= Seq::empty());
}

/// Acknowledgements are cumulative: of two in a row, the second leaves a sender as if the first
/// had been lost.
pub proof fn later_ack_covers_earlier(
    sender: SenderView,
    first: SeqNumber,
    second: SeqNumber,
    earlier_rto: Duration,
    earlier: Instant,
    rto: Duration,
    now: Instant,
)
    requires
        sender.wf(),
        sender.can_be_acked(second),
        sender.send_unacked.before(second),
        first.steps_from(sender.send_unacked) < second.steps_from(sender.send_unacked),
    ensures
        sender.acknowledged(first, earlier_rto, earlier).acknowledged(second, rto, now)
            == sender.acknowledged(second, rto, now),
{
    queue_facts(sender, second);
    ways_split(sender.send_unacked, first, second);
    let acked = sender.newly_acked(first);
    acknowledgements_add_up(
        sender.unacked,
        acked,
        sender.newly_acked(second) - acked,
    );
}

/// An acknowledgement of something new moves SND.UNA up to it, takes exactly the bytes in front
/// of it out of the queue, and leaves the bytes behind it there in order. Any other leaves
/// delivery as it is. Nothing else of delivery changes in either case.
pub proof fn ack_takes_out_what_it_covers<C: CongestionControl>(
    before: ControlBlock<C>,
    after: ControlBlock<C>,
    header: HeaderView,
    now: Instant,
)
    requires
        before.wf(),
        before.delivery@.sender.can_be_acked(header.ack_num),
        after.acknowledged_from(before, header, now),
    ensures
        ({
            let sender = before.delivery@.sender;
            let later = after.delivery@.sender;
            let flying = sender.send_next_seq_no.steps_from(sender.send_unacked);
            let acked = header.ack_num.steps_from(sender.send_unacked);
            &&& 0 < acked <= flying ==> {
                &&& later.send_unacked == header.ack_num
                &&& later.send_next_seq_no.steps_from(later.send_unacked) == flying - acked
                &&& contents(later.unacked) == contents(sender.unacked).skip(acked)
            }
            &&& !(0 < acked <= flying) ==> after.delivery@ == before.delivery@
            &&& later.send_next_seq_no == sender.send_next_seq_no
            &&& later.unsent == sender.unsent
            &&& later.sender_fin_seq_no == sender.sender_fin_seq_no
            &&& after.delivery@.receiver == before.delivery@.receiver
        }),
{
    let sender = before.delivery@.sender;
    queue_facts(sender, header.ack_num);
    if sender.send_unacked.before(header.ack_num) {
        acknowledging_cuts_contents(sender.unacked, sender.newly_acked(header.ack_num));
    }
}

/// Every acknowledgement number up to SND.NXT can be one of something that has been sent, and one
/// beyond SND.NXT cannot.
pub proof fn acks_reach_up_to_next(sender: SenderView, n: int)
    requires
        sender.wf(),
        0 <= n <= 0x8000_0000,
    ensures
        sender.can_be_acked(sender.send_unacked.advanced(n)) <==> n
            <= sender.send_next_seq_no.steps_from(sender.send_unacked),
        sender.newly_acked(sender.send_unacked.advanced(n)) == n,
{
    advancing_undoes_difference(sender.send_unacked, sender.send_unacked, n);
}

/// Something new that is acknowledged restarts the retransmission timer: the oldest segment that
/// is left has a full timeout from when it was sent, or from now if that no longer counts. The
/// timer stops once nothing is left. The timeout is the one that the new samples lead to.
pub proof fn ack_restarts_timer<C: CongestionControl>(
    before: ControlBlock<C>,
    after: ControlBlock<C>,
    header: HeaderView,
    now: Instant,
)
    requires
        after.acknowledged_from(before, header, now),
        0 < header.ack_num.steps_from(before.delivery@.sender.send_unacked) <= 0x8000_0000,
    ensures
        ({
            let later = after.delivery@.sender;
            let rto = after.congestion_control.rto_calculator.timeout.nanos;
            &&& later.unacked.len() == 0 <==> later.retransmit_deadline is None
            &&& later.unacked.len() > 0 ==> {
                let since = match later.unacked[0].initial_tx {
                    Some(sent) => sent.nanos,
                    None => now.nanos,
                };
                since + rto <= u64::MAX ==> later.retransmit_deadline->0.nanos == since + rto
            }
        }),
{
}

/// Every data segment that an acknowledgement covers adds to the estimate of the round-trip time,
/// in order, and nothing else of congestion control changes.
pub proof fn ack_feeds_estimate<C: CongestionControl>(
    before: ControlBlock<C>,
    after: ControlBlock<C>,
    header: HeaderView,
    now: Instant,
)
    requires
        after.acknowledged_from(before, header, now),
    ensures
        ({
            let sender = before.delivery@.sender;
            let acked = header.ack_num.steps_from(sender.send_unacked);
            let known = before.congestion_control.rto_calculator;
            &&& after.congestion_control.cc_algorithm == before.congestion_control.cc_algorithm
            &&& acked <= 0x8000_0000 ==> after.congestion_control.rto_calculator
                == known.sampled_all(samples(sender.unacked, acked, now))
            &&& acked > 0x8000_0000 ==> after.congestion_control.rto_calculator == known
        }),
{
    let sender = before.delivery@.sender;
    assert(samples(sender.unacked, 0, now) =~= Seq::empty());
    advancing_undoes_difference(sender.send_unacked, header.ack_num, 0);
}

/// What becomes of the state of a connection: an acknowledgement of everything, our FIN included,
/// leads from FIN_WAIT_1 to FIN_WAIT_2, from CLOSING to TIME_WAIT, and from LAST_ACK to CLOSED.
/// No other acknowledgement changes the state, and none changes anything else.
pub proof fn acked_fin_closes<C: CongestionControl>(
    before: ControlBlock<C>,
    after: ControlBlock<C>,
    header: HeaderView,
    now: Instant,
)
    requires
        before.wf(),
        before.delivery@.sender.can_be_acked(header.ack_num),
        after.acknowledged_from(before, header, now),
    ensures
        ({
            let sender = before.delivery@.sender;
            let cm = before.connection_management;
            let later = after.connection_management;
            let fin_acked = header.ack_num == sender.send_next_seq_no && exists|i: int|
                0 <= i < sender.unacked.len() && (#[trigger] sender.unacked[i]).bytes is None;
            &&& later.local == cm.local
            &&& later.remote == cm.remote
            &&& later.tcp_config == cm.tcp_config
            &&& later.socket_options == cm.socket_options
            &&& !fin_acked ==> later.state == cm.state
            &&& fin_acked ==> {
                ||| cm.state == State::FinWait1 && later.state == State::FinWait2
                ||| cm.state == State::Closing && later.state == State::TimeWait
                ||| cm.state == State::LastAck && later.state == State::Closed
            }
        }),
{
    let sender = before.delivery@.sender;
    let fin_somewhere = exists|i: int|
        0 <= i < sender.unacked.len() && (#[trigger] sender.unacked[i]).bytes is None;
    assert(fin_somewhere == holds_fin(sender.unacked)) by {
        if fin_somewhere {
            let i = choose|i: int|
                0 <= i < sender.unacked.len() && (#[trigger] sender.unacked[i]).bytes is None;
            assert(sender.unacked[i].is_fin());
        }
        if holds_fin(sender.unacked) {
            let i = choose|i: int|
                0 <= i < sender.unacked.len() && #[trigger] sender.unacked[i].is_fin();
            assert(sender.unacked[i].bytes is None);
        }
    }
    queue_facts(sender, header.ack_num);
    fin_is_reached_last(sender.unacked, sender.newly_acked(header.ack_num));
    acceptable_ack_fits(before, header);
    if fin_somewhere {
        let i = choose|i: int|
            0 <= i < sender.unacked.len() && #[trigger] sender.unacked[i].is_fin();
        assert(awaits_fin_ack(before.connection_management.state));
        crate::laws::queue::span_covers_segments(sender.unacked);
        advancing_undoes_difference(sender.send_unacked, sender.send_next_seq_no, 0);
        if header.ack_num == sender.send_next_seq_no {
            assert(sender.send_unacked.before(header.ack_num));
        }
    }
}

/// An acknowledgement of our FIN can only be processed if it ends right behind the FIN and the
/// FIN has been sent in the state that the connection is in.
pub proof fn misplaced_fin_ack_does_not_fit<C: CongestionControl>(
    cb: ControlBlock<C>,
    header: HeaderView,
)
    requires
        is_send_queue(cb.delivery@.sender.unacked),
        holds_fin(cb.delivery@.sender.unacked),
        total_span(cb.delivery@.sender.unacked) <= header.ack_num.steps_from(
            cb.delivery@.sender.send_unacked,
        ) <= 0x8000_0000,
        ({
            let sender = cb.delivery@.sender;
            let state = cb.connection_management.state;
            ||| header.ack_num.steps_from(sender.send_unacked) != total_span(sender.unacked)
            ||| sender.sender_fin_seq_no is None
            ||| sender.sender_fin_seq_no->0.advanced(1) != header.ack_num
            ||| (state != State::FinWait1 && state != State::Closing && state != State::LastAck)
        }),
    ensures
        !cb.ack_fits(header),
{
    let sender = cb.delivery@.sender;
    let acked = header.ack_num.steps_from(sender.send_unacked);
    crate::laws::queue::span_covers_segments(sender.unacked);
    overshoot_shows_at_fin(sender.unacked, acked);
    let i = choose|i: int| 0 <= i < sender.unacked.len() && #[trigger] sender.unacked[i].is_fin();
    assert(acked > 0);
}

/// Without a FIN in the queue no acknowledgement reaches one.
proof fn no_fin_is_reached(queue: Seq<UnackedView>, acked: int)
    requires
        !holds_fin(queue),
    ensures
        left_at_fin(queue, acked) is None,
    decreases queue.len(),
{
    if queue.len() > 0 {
        let tail = queue.drop_first();
        assert(!queue[0].is_fin());
        assert(!holds_fin(tail)) by {
            if holds_fin(tail) {
                let i = choose|i: int| 0 <= i < tail.len() && #[trigger] tail[i].is_fin();
                assert(queue[i + 1].is_fin());
            }
        }
        no_fin_is_reached(tail, acked - queue[0].span());
    }
}

/// As long as no FIN is unacknowledged, every acknowledgement can be processed, and none changes
/// the state of a connection.
pub proof fn without_fin_every_ack_fits<C: CongestionControl>(
    before: ControlBlock<C>,
    after: ControlBlock<C>,
    header: HeaderView,
    now: Instant,
)
    requires
        !holds_fin(before.delivery@.sender.unacked),
        before.flow_control.send_window_scale_shift_bits <= 14,
        after.acknowledged_from(before, header, now),
    ensures
        before.ack_fits(header),
        after.connection_management == before.connection_management,
{
    let sender = before.delivery@.sender;
    no_fin_is_reached(sender.unacked, sender.newly_acked(header.ack_num));
}

} // verus!

//! Laws of the queue of unacknowledged segments.
use crate::congestion_control_state::{sample, samples};
use crate::connection_management_state::left_at_fin;
use crate::sender::{remaining_after, total_span, UnackedView};
use crate::time::{Duration, Instant};
use vstd::prelude::*;

verus! {

/// A queue of the kind a sender keeps: no segment is empty, and only the last is a FIN.
pub open spec fn is_send_queue(queue: Seq<UnackedView>) -> bool {
    &&& forall|i: int| 0 <= i < queue.len() ==> #[trigger] queue[i].span() > 0
    &&& forall|i: int|
        0 <= i < queue.len() && #[trigger] queue[i].is_fin() ==> i == queue.len() - 1
}

/// Whether a FIN is in the queue.
pub open spec fn holds_fin(queue: Seq<UnackedView>) -> bool {
    exists|i: int| 0 <= i < queue.len() && #[trigger] queue[i].is_fin()
}

/// The tail of a queue is a queue.
proof fn tail_is_send_queue(queue: Seq<UnackedView>)
    requires
        is_send_queue(queue),
        queue.len() > 0,
    ensures
        is_send_queue(queue.drop_first()),
        holds_fin(queue) == (queue[0].is_fin() || holds_fin(queue.drop_first())),
        queue[0].is_fin() ==> queue.drop_first().len() == 0,
{
    let tail = queue.drop_first();
    assert forall|i: int| 0 <= i < tail.len() implies #[trigger] tail[i].span() > 0 by {
        assert(tail[i] == queue[i + 1]);
        assert(queue[i + 1].span() > 0);
    }
    assert forall|i: int| 0 <= i < tail.len() && #[trigger] tail[i].is_fin() implies i
        == tail.len() - 1 by {
        assert(queue[i + 1].is_fin());
    }
    if holds_fin(tail) {
        let i = choose|i: int| 0 <= i < tail.len() && #[trigger] tail[i].is_fin();
        assert(queue[i + 1].is_fin());
    }
    if holds_fin(queue) && !queue[0].is_fin() {
        let i = choose|i: int| 0 <= i < queue.len() && #[trigger] queue[i].is_fin();
        assert(tail[i - 1].is_fin());
    }
}

/// A queue takes up as many sequence numbers as it has segments, or more.
pub proof fn span_covers_segments(queue: Seq<UnackedView>)
    requires
        is_send_queue(queue),
    ensures
        total_span(queue) >= queue.len(),
    decreases queue.len(),
{
    if queue.len() > 0 {
        tail_is_send_queue(queue);
        assert(queue[0].span() > 0);
        span_covers_segments(queue.drop_first());
    }
}

/// Appending a segment adds what it takes up.
pub proof fn span_grows_by_segment(queue: Seq<UnackedView>, segment: UnackedView)
    ensures
        total_span(queue.push(segment)) == total_span(queue) + segment.span(),
    decreases queue.len(),
{
    let longer = queue.push(segment);
    if queue.len() == 0 {
        assert(longer.drop_first() =~= Seq::empty());
        assert(total_span(longer.drop_first()) == 0);
    } else {
        assert(longer.drop_first() =~= queue.drop_first().push(segment));
        span_grows_by_segment(queue.drop_first(), segment);
    }
}

/// An acknowledgement takes exactly what it acknowledges out of the queue, and leaves a queue.
/// A FIN stays until everything is acknowledged.
pub proof fn acknowledging_shortens(queue: Seq<UnackedView>, acked: int)
    requires
        is_send_queue(queue),
        0 <= acked <= total_span(queue),
    ensures
        is_send_queue(remaining_after(queue, acked)),
        total_span(remaining_after(queue, acked)) == total_span(queue) - acked,
        holds_fin(remaining_after(queue, acked)) == (holds_fin(queue) && acked < total_span(queue)),
    decreases queue.len(),
{
    let left = remaining_after(queue, acked);
    if queue.len() == 0 || acked <= 0 {
        if queue.len() > 0 {
            span_covers_segments(queue);
        }
    } else {
        let tail = queue.drop_first();
        tail_is_send_queue(queue);
        span_covers_segments(tail);
        if queue[0].span() <= acked {
            acknowledging_shortens(tail, acked - queue[0].span());
            if queue[0].is_fin() {
                assert(tail.len() == 0);
                assert(total_span(tail) == 0);
            }
        } else {
            let head = UnackedView { bytes: Some(queue[0].bytes->0.skip(acked)), initial_tx: None };
            assert(left == seq![head] + tail);
            assert(left.drop_first() =~= tail);
            assert(left[0] == head);
            assert(head.span() == queue[0].span() - acked);
            assert forall|i: int| 0 <= i < left.len() implies #[trigger] left[i].span() > 0 by {
                if i > 0 {
                    assert(left[i] == tail[i - 1]);
                    assert(tail[i - 1].span() > 0);
                }
            }
            assert forall|i: int| 0 <= i < left.len() && #[trigger] left[i].is_fin() implies i
                == left.len() - 1 by {
                assert(left[i] == tail[i - 1]);
                assert(tail[i - 1].is_fin());
            }
            assert(!queue[0].is_fin());
            if holds_fin(left) {
                let i = choose|i: int| 0 <= i < left.len() && #[trigger] left[i].is_fin();
                assert(tail[i - 1].is_fin());
            }
            if holds_fin(tail) {
                let i = choose|i: int| 0 <= i < tail.len() && #[trigger] tail[i].is_fin();
                assert(left[i + 1].is_fin());
            }
        }
    }
}

/// An acknowledgement reaches the FIN exactly if it covers the whole of a queue that holds one,
/// and then it is left with just the FIN's own sequence number.
pub proof fn fin_is_reached_last(queue: Seq<UnackedView>, acked: int)
    requires
        is_send_queue(queue),
        0 <= acked <= total_span(queue),
    ensures
        left_at_fin(queue, acked) is Some <==> holds_fin(queue) && acked == total_span(queue),
        left_at_fin(queue, acked) is Some ==> left_at_fin(queue, acked) == Some(1int),
    decreases queue.len(),
{
    if queue.len() == 0 {
    } else {
        let tail = queue.drop_first();
        tail_is_send_queue(queue);
        span_covers_segments(tail);
        assert(queue[0].span() > 0);
        if queue[0].is_fin() {
            assert(total_span(tail) == 0);
        } else if acked > 0 {
            if acked <= queue[0].span() {
                assert(left_at_fin(tail, acked - queue[0].span()) is None);
                if holds_fin(tail) {
                    assert(tail.len() > 0);
                }
            } else {
                fin_is_reached_last(tail, acked - queue[0].span());
            }
        }
    }
}

/// Acknowledgements are cumulative: two in a row leave what a single one over both would have
/// left.
pub proof fn acknowledgements_add_up(queue: Seq<UnackedView>, first: int, second: int)
    requires
        0 <= first,
        0 <= second,
    ensures
        second > 0 ==> remaining_after(remaining_after(queue, first), second) == remaining_after(
            queue,
            first + second,
        ),
        second == 0 ==> remaining_after(remaining_after(queue, first), second) == remaining_after(
            queue,
            first,
        ),
    decreases queue.len(),
{
    if queue.len() == 0 || first <= 0 {
    } else if queue[0].span() <= first {
        acknowledgements_add_up(queue.drop_first(), first - queue[0].span(), second);
    } else if second > 0 {
        let tail = queue.drop_first();
        let bytes = queue[0].bytes->0;
        let head = UnackedView { bytes: Some(bytes.skip(first)), initial_tx: None };
        let once = remaining_after(queue, first);
        assert(once == seq![head] + tail);
        assert(once[0] == head);
        assert(once.drop_first() =~= tail);
        assert(head.span() == queue[0].span() - first);
        if head.span() > second {
            assert(bytes.skip(first).skip(second) =~= bytes.skip(first + second));
        } else {
            assert(remaining_after(once, second) == remaining_after(tail, second - head.span()));
            assert(remaining_after(queue, first + second) == remaining_after(
                tail,
                first + second - queue[0].span(),
            ));
        }
    }
}

/// No segment yields more than one sample of the round-trip time: two acknowledgements in a row
/// yield together what a single one over both would have yielded.
pub proof fn samples_add_up(queue: Seq<UnackedView>, first: int, second: int, now: Instant)
    requires
        is_send_queue(queue),
        0 <= first <= total_span(queue),
        0 <= second,
    ensures
        samples(queue, first, now) + samples(remaining_after(queue, first), second, now)
            == samples(queue, first + second, now),
    decreases queue.len(),
{
    let left = remaining_after(queue, first);
    if queue.len() == 0 || first <= 0 {
        assert(samples(queue, first, now) =~= Seq::empty());
        assert(samples(queue, first, now) + samples(queue, second, now) =~= samples(
            queue,
            second,
            now,
        ));
    } else {
        let tail = queue.drop_first();
        tail_is_send_queue(queue);
        assert(queue[0].span() > 0);
        if queue[0].is_fin() {
            assert(tail.len() == 0);
            assert(total_span(tail) == 0);
            assert(left == remaining_after(tail, first - 1));
            assert(left =~= tail);
            assert(samples(left, second, now) =~= Seq::empty());
            assert(samples(queue, first, now) + samples(left, second, now) =~= samples(
                queue,
                first + second,
                now,
            ));
        } else if queue[0].span() <= first {
            let rest = first - queue[0].span();
            samples_add_up(tail, rest, second, now);
            let head = sample(queue[0].initial_tx, now);
            assert(samples(queue, first, now) == head + samples(tail, rest, now));
            assert(samples(queue, first + second, now) == head + samples(tail, rest + second, now));
            assert(head + samples(tail, rest, now) + samples(left, second, now) =~= head + (samples(
                tail,
                rest,
                now,
            ) + samples(left, second, now)));
        } else {
            let cut = UnackedView {
                bytes: Some(queue[0].bytes->0.skip(first)),
                initial_tx: None,
            };
            assert(left == seq![cut] + tail);
            assert(left[0] == cut);
            assert(left.drop_first() =~= tail);
            assert(cut.span() == queue[0].span() - first);
            let head = sample(queue[0].initial_tx, now);
            assert(samples(tail, first - queue[0].span(), now) =~= Seq::empty());
            assert(samples(queue, first, now) =~= head);
            assert(samples(queue, first + second, now) == head + samples(
                tail,
                first + second - queue[0].span(),
                now,
            ));
            if second > 0 {
                assert(samples(left, second, now) == sample(None, now) + samples(
                    tail,
                    second - cut.span(),
                    now,
                ));
            } else {
                assert(samples(left, second, now) =~= Seq::empty());
                assert(samples(tail, first + second - queue[0].span(), now) =~= Seq::empty());
            }
            assert(samples(queue, first, now) + samples(left, second, now) =~= samples(
                queue,
                first + second,
                now,
            ));
        }
    }
}

/// Data takes up one sequence number for each byte, a FIN takes up one.
pub proof fn segments_take_up_their_bytes(
    queue: Seq<UnackedView>,
    data: Seq<u8>,
    initial_tx: Option<Instant>,
)
    ensures
        total_span(Seq::<UnackedView>::empty()) == 0,
        total_span(queue.push(UnackedView { bytes: Some(data), initial_tx })) == total_span(queue)
            + data.len(),
        total_span(queue.push(UnackedView { bytes: None, initial_tx })) == total_span(queue) + 1,
{
    span_grows_by_segment(queue, UnackedView { bytes: Some(data), initial_tx });
    span_grows_by_segment(queue, UnackedView { bytes: None, initial_tx });
}

/// The first `k` segments of a queue, seen from its second segment on.
proof fn taking_and_dropping(queue: Seq<UnackedView>, k: int)
    requires
        is_send_queue(queue),
        0 < k <= queue.len(),
    ensures
        is_send_queue(queue.drop_first()),
        total_span(queue.take(k)) == queue[0].span() + total_span(queue.drop_first().take(k - 1)),
        total_span(queue.drop_first().take(k - 1)) >= 0,
        queue.skip(k) == queue.drop_first().skip(k - 1),
        k < queue.len() ==> !queue[0].is_fin(),
        queue[0].span() > 0,
{
    let tail = queue.drop_first();
    tail_is_send_queue(queue);
    assert(queue.take(k).drop_first() =~= tail.take(k - 1));
    assert(queue.take(k)[0] == queue[0]);
    assert(queue.skip(k) =~= tail.skip(k - 1));
    assert(queue[0].span() > 0);
    let part = tail.take(k - 1);
    assert forall|i: int| 0 <= i < part.len() implies #[trigger] part[i].span() > 0 by {
        assert(part[i] == tail[i]);
        assert(tail[i].span() > 0);
    }
    assert forall|i: int| 0 <= i < part.len() && #[trigger] part[i].is_fin() implies i
        == part.len() - 1 by {
        assert(tail[i].is_fin());
    }
    span_covers_segments(part);
}

/// An acknowledgement that ends with a segment removes the segments up to it, and leaves those
/// behind it as they are.
pub proof fn acked_segments_leave(queue: Seq<UnackedView>, k: int)
    requires
        is_send_queue(queue),
        0 <= k <= queue.len(),
    ensures
        remaining_after(queue, total_span(queue.take(k))) == queue.skip(k),
    decreases k,
{
    if k == 0 {
        assert(queue.take(0).len() == 0);
        assert(queue.skip(0) =~= queue);
    } else {
        taking_and_dropping(queue, k);
        acked_segments_leave(queue.drop_first(), k - 1);
    }
}

/// An acknowledgement that ends inside a segment removes the segments in front of it and the
/// acknowledged bytes of it. What is left of it is no sample any more, and the segments behind
/// it stay as they are.
pub proof fn acked_bytes_leave(queue: Seq<UnackedView>, k: int, n: int)
    requires
        is_send_queue(queue),
        0 <= k < queue.len(),
        queue[k].bytes is Some,
        0 < n < queue[k].bytes->0.len(),
    ensures
        ({
            let left = remaining_after(queue, total_span(queue.take(k)) + n);
            &&& left.len() == queue.len() - k
            &&& left[0].bytes == Some(queue[k].bytes->0.skip(n))
            &&& left[0].initial_tx is None
            &&& left.skip(1) == queue.skip(k + 1)
        }),
    decreases k,
{
    let left = remaining_after(queue, total_span(queue.take(k)) + n);
    if k == 0 {
        assert(queue.take(0).len() == 0);
        assert(queue[0].span() == queue[0].bytes->0.len());
        assert(left.skip(1) =~= queue.skip(1));
    } else {
        taking_and_dropping(queue, k);
        let tail = queue.drop_first();
        assert(tail[k - 1] == queue[k]);
        acked_bytes_leave(tail, k - 1, n);
        assert(tail.skip(k) =~= queue.skip(k + 1));
    }
}

/// What the sequence numbers of a queue stand for: the bytes in order, and `None` for a FIN.
pub open spec fn contents(queue: Seq<UnackedView>) -> Seq<Option<u8>>
    decreases queue.len(),
{
    if queue.len() == 0 {
        Seq::empty()
    } else {
        (match queue[0].bytes {
            Some(bytes) => Seq::new(bytes.len(), |i: int| Some(bytes[i])),
            None => seq![None],
        }) + contents(queue.drop_first())
    }
}

/// Whatever is acknowledged, the bytes behind it stay in the queue, in order, and no others.
pub proof fn acknowledging_cuts_contents(queue: Seq<UnackedView>, acked: int)
    requires
        is_send_queue(queue),
        0 <= acked <= total_span(queue),
    ensures
        contents(queue).len() == total_span(queue),
        contents(remaining_after(queue, acked)) == contents(queue).skip(acked),
    decreases queue.len(),
{
    if queue.len() == 0 {
        assert(contents(queue).skip(0) =~= contents(queue));
    } else {
        let tail = queue.drop_first();
        tail_is_send_queue(queue);
        span_covers_segments(tail);
        acknowledging_cuts_contents(tail, 0);
        let head = match queue[0].bytes {
            Some(bytes) => Seq::new(bytes.len(), |i: int| Some(bytes[i])),
            None => seq![None],
        };
        assert(contents(queue) == head + contents(tail));
        assert(head.len() == queue[0].span());
        if acked == 0 {
            assert(contents(queue).skip(0) =~= contents(queue));
        } else if queue[0].span() <= acked {
            acknowledging_cuts_contents(tail, acked - queue[0].span());
            assert(contents(queue).skip(acked) =~= contents(tail).skip(acked - queue[0].span()));
        } else {
            let left = remaining_after(queue, acked);
            let bytes = queue[0].bytes->0;
            let cut = bytes.skip(acked);
            assert(left[0].bytes == Some(cut));
            assert(left.drop_first() =~= tail);
            assert(contents(left) == Seq::new(cut.len(), |i: int| Some(cut[i])) + contents(tail));
            assert(contents(left) =~= contents(queue).skip(acked));
        }
    }
}

/// Covering the first byte of one more data segment yields its round-trip time as one more
/// sample, if the segment was sent only once. A FIN yields none, and so does covering nothing.
pub proof fn each_segment_yields_its_sample(
    queue: Seq<UnackedView>,
    k: int,
    acked: int,
    now: Instant,
)
    requires
        is_send_queue(queue),
        0 <= k < queue.len(),
        total_span(queue.take(k)) < acked <= total_span(queue.take(k + 1)),
    ensures
        samples(queue, 0, now) == Seq::<Duration>::empty(),
        ({
            let earlier = samples(queue, total_span(queue.take(k)), now);
            let all = samples(queue, acked, now);
            match (queue[k].bytes, queue[k].initial_tx) {
                (Some(_), Some(sent)) => {
                    &&& all.len() == earlier.len() + 1
                    &&& all.drop_last() == earlier
                    &&& sent.nanos <= now.nanos ==> all.last().nanos == now.nanos - sent.nanos
                    &&& sent.nanos > now.nanos ==> all.last().nanos == 0
                },
                _ => all == earlier,
            }
        }),
    decreases k,
{
    let upto = total_span(queue.take(k));
    let earlier = samples(queue, upto, now);
    let all = samples(queue, acked, now);
    let tail = queue.drop_first();
    taking_and_dropping(queue, k + 1);
    assert(samples(queue, 0, now) =~= Seq::empty());
    let head = sample(queue[0].initial_tx, now);
    if k == 0 {
        assert(queue.take(0).len() == 0);
        assert(tail.take(0).len() == 0);
        assert(upto == 0);
        if !queue[0].is_fin() {
            assert(samples(tail, acked - queue[0].span(), now) =~= Seq::empty());
            assert(all =~= head);
            assert(all.drop_last() =~= if queue[0].initial_tx is Some {
                earlier
            } else {
                all.drop_last()
            });
        }
    } else {
        taking_and_dropping(queue, k);
        assert(tail[k - 1] == queue[k]);
        each_segment_yields_its_sample(tail, k - 1, acked - queue[0].span(), now);
        let tail_earlier = samples(tail, upto - queue[0].span(), now);
        let tail_all = samples(tail, acked - queue[0].span(), now);
        assert(earlier == head + tail_earlier);
        assert(all == head + tail_all);
        if queue[k].bytes is Some && queue[k].initial_tx is Some {
            assert(all.drop_last() =~= head + tail_all.drop_last());
            assert(all.last() == tail_all.last());
        }
    }
}

/// An acknowledgement that covers a whole queue with a FIN at its end comes to the FIN with what
/// goes beyond the FIN left over.
pub proof fn overshoot_shows_at_fin(queue: Seq<UnackedView>, acked: int)
    requires
        is_send_queue(queue),
        holds_fin(queue),
        acked >= total_span(queue),
    ensures
        left_at_fin(queue, acked) == Some(acked - total_span(queue) + 1),
    decreases queue.len(),
{
    if queue.len() > 0 {
        let tail = queue.drop_first();
        tail_is_send_queue(queue);
        span_covers_segments(tail);
        assert(queue[0].span() > 0);
        if queue[0].is_fin() {
            assert(total_span(tail) == 0);
        } else {
            overshoot_shows_at_fin(tail, acked - queue[0].span());
        }
    }
}

} // verus!

//! Laws of receiving.
use crate::connection_management_state::ConnectionManagementState;
use crate::ctrlblk::State;
use crate::delivery_state::{connection_header, receives_data, DeliveryView};
use crate::laws::sequence::{advancing_adds_up, advancing_undoes_difference};
use crate::receiver::{first_frame_at, starts_from, FrameView, ReceiverView};
use crate::seq_number::{sequence_space, SeqNumber};
use crate::time::Duration;
use vstd::arithmetic::power2::pow2;
use vstd::prelude::*;

verus! {

/// The search finds the first frame that starts at a sequence number, if there is one.
proof fn search_finds_first(frames: Seq<FrameView>, seq: SeqNumber)
    ensures
        0 <= first_frame_at(frames, seq) <= frames.len(),
        first_frame_at(frames, seq) < frames.len() ==> frames[first_frame_at(frames, seq)].start
            == seq,
        forall|i: int|
            0 <= i < first_frame_at(frames, seq) ==> #[trigger] frames[i].start != seq,
    decreases frames.len(),
{
    if frames.len() > 0 && frames[0].start != seq {
        let tail = frames.drop_first();
        search_finds_first(tail, seq);
        assert forall|i: int| 0 <= i < first_frame_at(frames, seq) implies #[trigger] frames[i].start
            != seq by {
            if i > 0 {
                assert(frames[i] == tail[i - 1]);
            }
        }
    }
}

/// Once waiting frames have been moved, none starts where the next data is expected.
proof fn no_frame_left_at_next(receiver: ReceiverView)
    ensures
        forall|i: int|
            0 <= i < receiver.caught_up().out_of_order.len() ==> (
            #[trigger] receiver.caught_up().out_of_order[i]).start
                != receiver.caught_up().receive_next_seq_no,
    decreases receiver.out_of_order.len(),
{
    search_finds_first(receiver.out_of_order, receiver.receive_next_seq_no);
    let i = first_frame_at(receiver.out_of_order, receiver.receive_next_seq_no);
    if 0 <= i < receiver.out_of_order.len() {
        let next = ReceiverView {
            out_of_order: receiver.out_of_order.remove(i),
            ..receiver.appended(receiver.out_of_order[i].data)
        };
        no_frame_left_at_next(next);
        assert(receiver.caught_up() == next.caught_up());
    }
}

/// What is left after pruning was there before, and RCV.NXT has not passed it.
proof fn pruning_keeps_later_frames(receiver: ReceiverView)
    ensures
        forall|i: int|
            #![trigger receiver.pruned().out_of_order[i]]
            0 <= i < receiver.pruned().out_of_order.len() ==> {
                &&& receiver.out_of_order.contains(receiver.pruned().out_of_order[i])
                &&& !receiver.pruned().out_of_order[i].start.before(receiver.receive_next_seq_no)
            },
{
    let keep = starts_from(receiver.receive_next_seq_no);
    let frames = receiver.out_of_order;
    assert forall|i: int|
        #![trigger receiver.pruned().out_of_order[i]]
        0 <= i < receiver.pruned().out_of_order.len() implies {
        &&& frames.contains(receiver.pruned().out_of_order[i])
        &&& !receiver.pruned().out_of_order[i].start.before(receiver.receive_next_seq_no)
    } by {
        let frame = frames.filter(keep)[i];
        assert(frames.filter(keep).contains(frame));
        frames.lemma_filter_contains_rev(keep, frame);
        frames.lemma_filter_pred(keep, i);
    }
}

/// Once data in order has been taken in, every waiting frame waits for a hole in front of it to
/// be filled: it starts neither at RCV.NXT nor before it.
pub proof fn no_frame_waits_without_hole(receiver: ReceiverView, data: Seq<u8>)
    ensures
        forall|i: int|
            #![trigger receiver.continued(data).out_of_order[i]]
            0 <= i < receiver.continued(data).out_of_order.len() ==> {
                let frame = receiver.continued(data).out_of_order[i];
                &&& frame.start != receiver.continued(data).receive_next_seq_no
                &&& !frame.start.before(receiver.continued(data).receive_next_seq_no)
            },
{
    let caught_up = receiver.appended(data).caught_up();
    no_frame_left_at_next(receiver.appended(data));
    pruning_keeps_later_frames(caught_up);
}

/// Data that arrives out of order moves RCV.NXT nowhere, so the ACK that answers it repeats the
/// previous acknowledgement number.
pub proof fn early_data_is_not_acknowledged(
    cm: ConnectionManagementState,
    before: DeliveryView,
    start: SeqNumber,
    end: SeqNumber,
    data: Seq<u8>,
    seq_num: SeqNumber,
)
    ensures
        ({
            let after = DeliveryView { receiver: before.receiver.stored(start, end, data), ..before };
            &&& after.receiver.received == before.receiver.received
            &&& connection_header(cm, after, seq_num) == connection_header(cm, before, seq_num)
            &&& connection_header(cm, after, seq_num).ack_num
                == before.receiver.receive_next_seq_no
        }),
{
}

/// All received data in one piece.
pub open spec fn stream_of(received: Seq<Seq<u8>>) -> Seq<u8>
    decreases received.len(),
{
    if received.len() == 0 {
        Seq::empty()
    } else {
        stream_of(received.drop_last()) + received.last()
    }
}

/// A byte stream of the peer: the byte at each offset from the start of the connection.
pub open spec fn is_prefix_of_stream(bytes: Seq<u8>, stream: spec_fn(int) -> u8) -> bool {
    forall|i: int| 0 <= i < bytes.len() ==> #[trigger] bytes[i] == stream(i)
}

/// How far from RCV.NXT data may lie: a quarter of the sequence space. No window is larger.
pub open spec fn reach() -> int {
    0x4000_0000
}

/// Whether a frame holds the bytes of the stream from `offset` on, where the stream starts at
/// the sequence number `base`, and lies within reach of the stream's first `len` bytes.
pub open spec fn frame_at(
    frame: FrameView,
    offset: int,
    len: int,
    base: SeqNumber,
    stream: spec_fn(int) -> u8,
) -> bool {
    &&& frame.start == base.advanced(offset)
    &&& forall|i: int| 0 <= i < frame.data.len() ==> #[trigger] frame.data[i] == stream(offset + i)
    &&& len - reach() <= offset
    &&& offset + frame.data.len() <= len + reach()
}

/// Whether a frame holds bytes of the stream within reach of its first `len` bytes.
pub open spec fn belongs(
    frame: FrameView,
    len: int,
    base: SeqNumber,
    stream: spec_fn(int) -> u8,
) -> bool {
    exists|offset: int| #[trigger] frame_at(frame, offset, len, base, stream)
}

/// A receiver that has received a prefix of the peer's stream, up to RCV.NXT, and keeps frames
/// of the stream within reach of the point `len`.
pub open spec fn keeps_stream(
    receiver: ReceiverView,
    len: int,
    base: SeqNumber,
    stream: spec_fn(int) -> u8,
) -> bool {
    let bytes = stream_of(receiver.received);
    &&& is_prefix_of_stream(bytes, stream)
    &&& receiver.receive_next_seq_no == base.advanced(bytes.len() as int)
    &&& len <= bytes.len() <= len + reach()
    &&& forall|frame: FrameView| #[trigger]
        receiver.out_of_order.contains(frame) ==> belongs(frame, len, base, stream)
}

/// A receiver that follows the peer's stream, which starts at the sequence number `base`: it has
/// received a prefix of the stream, up to RCV.NXT, and keeps frames of it within reach.
pub open spec fn follows_stream(
    receiver: ReceiverView,
    base: SeqNumber,
    stream: spec_fn(int) -> u8,
) -> bool {
    keeps_stream(receiver, stream_of(receiver.received).len() as int, base, stream)
}

/// Appending the next bytes of the stream.
proof fn appending_follows_stream(
    received: Seq<Seq<u8>>,
    data: Seq<u8>,
    stream: spec_fn(int) -> u8,
)
    requires
        is_prefix_of_stream(stream_of(received), stream),
        forall|i: int|
            0 <= i < data.len() ==> #[trigger] data[i] == stream(stream_of(received).len() + i),
    ensures
        is_prefix_of_stream(stream_of(received.push(data)), stream),
        stream_of(received.push(data)).len() == stream_of(received).len() + data.len(),
{
    let longer = received.push(data);
    assert(longer.drop_last() =~= received);
    let old_bytes = stream_of(received);
    let bytes = stream_of(longer);
    assert(bytes == old_bytes + data);
    assert forall|i: int| 0 <= i < bytes.len() implies #[trigger] bytes[i] == stream(i) by {
        if i < old_bytes.len() {
            assert(bytes[i] == old_bytes[i]);
        } else {
            assert(bytes[i] == data[i - old_bytes.len()]);
        }
    }
}

/// Catching up moves frames behind the received data only where they continue the stream.
proof fn catching_up_follows_stream(
    receiver: ReceiverView,
    len: int,
    base: SeqNumber,
    stream: spec_fn(int) -> u8,
)
    requires
        keeps_stream(receiver, len, base, stream),
    ensures
        keeps_stream(receiver.caught_up(), len, base, stream),
        receiver.received.is_prefix_of(receiver.caught_up().received),
        stream_of(receiver.caught_up().received).len() >= stream_of(receiver.received).len(),
    decreases receiver.out_of_order.len(),
{
    let frames = receiver.out_of_order;
    search_finds_first(frames, receiver.receive_next_seq_no);
    let k = first_frame_at(frames, receiver.receive_next_seq_no);
    if 0 <= k < frames.len() {
        let next = ReceiverView {
            out_of_order: frames.remove(k),
            ..receiver.appended(frames[k].data)
        };
        let end = stream_of(receiver.received).len() as int;
        assert(frames.contains(frames[k]));
        let offset = choose|offset: int| #[trigger] frame_at(frames[k], offset, len, base, stream);
        assert(frame_at(frames[k], offset, len, base, stream));
        // Both offsets lie within reach, so equal sequence numbers mean equal offsets.
        same_number_same_offset(base, offset, end);
        appending_follows_stream(receiver.received, frames[k].data, stream);
        advancing_adds_up(base, end, frames[k].data.len() as int);
        assert forall|frame: FrameView| #[trigger] next.out_of_order.contains(frame) implies belongs(
            frame,
            len,
            base,
            stream,
        ) by {
            let i = choose|i: int|
                0 <= i < next.out_of_order.len() && next.out_of_order[i] == frame;
            assert(frame == frames[if i < k {
                i
            } else {
                i + 1
            }]);
            assert(frames.contains(frame));
        }
        catching_up_follows_stream(next, len, base, stream);
        assert(receiver.caught_up() == next.caught_up());
        assert(receiver.received.is_prefix_of(next.received));
    }
}

/// Offsets less than the sequence space apart that have the same sequence number are equal.
proof fn same_number_same_offset(base: SeqNumber, a: int, b: int)
    requires
        base.advanced(a) == base.advanced(b),
        -sequence_space() < a - b < sequence_space(),
    ensures
        a == b,
{
    vstd::arithmetic::div_mod::lemma_fundamental_div_mod(base.value + a, sequence_space());
    vstd::arithmetic::div_mod::lemma_fundamental_div_mod(base.value + b, sequence_space());
}

/// A new connection follows the peer's stream, whatever the stream is.
pub proof fn new_receiver_follows_stream(
    next: SeqNumber,
    ack_delay_timeout: Duration,
    buffer_size_bytes: u32,
    window_scale_shift_bits: u8,
    stream: spec_fn(int) -> u8,
)
    ensures
        follows_stream(
            ReceiverView::fresh(
                next,
                next,
                ack_delay_timeout,
                buffer_size_bytes,
                window_scale_shift_bits,
            ),
            next,
            stream,
        ),
{
}

/// Pruning brings everything that waits back into reach of the new RCV.NXT.
proof fn pruning_follows_stream(
    receiver: ReceiverView,
    len: int,
    base: SeqNumber,
    stream: spec_fn(int) -> u8,
)
    requires
        keeps_stream(receiver, len, base, stream),
    ensures
        follows_stream(receiver.pruned(), base, stream),
{
    let end = stream_of(receiver.received).len() as int;
    let later = receiver.pruned();
    pruning_keeps_later_frames(receiver);
    assert forall|frame: FrameView| #[trigger] later.out_of_order.contains(frame) implies belongs(
        frame,
        end,
        base,
        stream,
    ) by {
        let i = choose|i: int| 0 <= i < later.out_of_order.len() && later.out_of_order[i] == frame;
        assert(later.out_of_order[i] == frame);
        assert(receiver.out_of_order.contains(frame));
        assert(belongs(frame, len, base, stream));
        let offset = choose|offset: int| #[trigger] frame_at(frame, offset, len, base, stream);
        assert(frame_at(frame, offset, len, base, stream));
        // A frame further back than RCV.NXT would have been dropped.
        if offset < end {
            advancing_adds_up(base, offset, end - offset);
            assert(frame.start.advanced(end - offset) == receiver.receive_next_seq_no);
            advancing_undoes_difference(frame.start, receiver.receive_next_seq_no, end - offset);
            assert(frame.start.before(receiver.receive_next_seq_no));
        }
        assert(frame_at(frame, offset, end, base, stream));
    }
}

/// Whether a segment holds bytes of the peer's stream within reach of RCV.NXT. It may continue
/// the stream, come early, come late, or repeat what has arrived before.
pub open spec fn is_segment_of_stream(
    receiver: ReceiverView,
    segment: FrameView,
    base: SeqNumber,
    stream: spec_fn(int) -> u8,
) -> bool {
    belongs(segment, stream_of(receiver.received).len() as int, base, stream)
}

/// Whatever segment of the peer's stream arrives, the receiver goes on following the stream. What
/// has been received stays as it is, and more may be added behind it.
pub proof fn arrival_follows_stream(
    receiver: ReceiverView,
    segment: FrameView,
    base: SeqNumber,
    stream: spec_fn(int) -> u8,
)
    requires
        follows_stream(receiver, base, stream),
        is_segment_of_stream(receiver, segment, base, stream),
    ensures
        ({
            let after = receiver.taken_in(segment.start, segment.end, segment.data);
            &&& follows_stream(after, base, stream)
            &&& receiver.received.is_prefix_of(after.received)
            &&& segment.start == receiver.receive_next_seq_no ==> stream_of(after.received).len()
                >= stream_of(receiver.received).len() + segment.data.len()
        }),
{
    let len = stream_of(receiver.received).len() as int;
    let offset = choose|offset: int| #[trigger] frame_at(segment, offset, len, base, stream);
    assert(frame_at(segment, offset, len, base, stream));
    if segment.start == receiver.receive_next_seq_no {
        same_number_same_offset(base, offset, len);
        appending_follows_stream(receiver.received, segment.data, stream);
        advancing_adds_up(base, len, segment.data.len() as int);
        let next = receiver.appended(segment.data);
        assert(keeps_stream(next, len, base, stream));
        catching_up_follows_stream(next, len, base, stream);
        pruning_follows_stream(next.caught_up(), len, base, stream);
        assert(receiver.received.is_prefix_of(next.received));
    } else {
        let after = receiver.stored(segment.start, segment.end, segment.data);
        assert forall|frame: FrameView| #[trigger] after.out_of_order.contains(frame) implies belongs(
            frame,
            len,
            base,
            stream,
        ) by {
            let i = choose|i: int|
                0 <= i < after.out_of_order.len() && after.out_of_order[i] == frame;
            if i < receiver.out_of_order.len() {
                assert(receiver.out_of_order[i] == frame);
                assert(receiver.out_of_order.contains(frame));
            } else {
                assert(frame == segment);
            }
        }
    }
}

/// A receiver after several segments, one after the other.
pub open spec fn after_segments(
    receiver: ReceiverView,
    segments: Seq<FrameView>,
) -> ReceiverView
    decreases segments.len(),
{
    if segments.len() == 0 {
        receiver
    } else {
        let last = segments.last();
        after_segments(receiver, segments.drop_last()).taken_in(last.start, last.end, last.data)
    }
}

/// Data is delivered in order: whatever segments of the peer's stream arrive, in whatever order
/// and however often, what has been received is a prefix of the stream and reaches up to
/// RCV.NXT. Each segment has to lie within reach of RCV.NXT at the moment of its arrival; the
/// stream itself may be of any length.
pub proof fn delivery_is_in_order(
    receiver: ReceiverView,
    segments: Seq<FrameView>,
    base: SeqNumber,
    stream: spec_fn(int) -> u8,
)
    requires
        follows_stream(receiver, base, stream),
        forall|k: int|
            0 <= k < segments.len() ==> is_segment_of_stream(
                after_segments(receiver, segments.take(k)),
                #[trigger] segments[k],
                base,
                stream,
            ),
    ensures
        ({
            let after = after_segments(receiver, segments);
            let bytes = stream_of(after.received);
            &&& follows_stream(after, base, stream)
            &&& is_prefix_of_stream(bytes, stream)
            &&& after.receive_next_seq_no == base.advanced(bytes.len() as int)
            &&& receiver.received.is_prefix_of(after.received)
        }),
    decreases segments.len(),
{
    if segments.len() > 0 {
        let earlier = segments.drop_last();
        let last = segments.len() - 1;
        assert forall|k: int| 0 <= k < earlier.len() implies is_segment_of_stream(
            after_segments(receiver, earlier.take(k)),
            #[trigger] earlier[k],
            base,
            stream,
        ) by {
            assert(earlier[k] == segments[k]);
            assert(earlier.take(k) =~= segments.take(k));
        }
        delivery_is_in_order(receiver, earlier, base, stream);
        assert(segments.take(last) =~= earlier);
        assert(segments[last] == segments.last());
        arrival_follows_stream(
            after_segments(receiver, earlier),
            segments.last(),
            base,
            stream,
        );
    }
}

/// The advertised window never promises more than the receiver has room for.
pub proof fn window_promises_no_more_than_room(receiver: ReceiverView)
    requires
        receiver.wf(),
    ensures
        0 <= receiver.advertised_window() * pow2(receiver.window_scale_shift_bits as nat)
            <= receiver.free_space(),
{
    let factor = pow2(receiver.window_scale_shift_bits as nat) as int;
    vstd::arithmetic::power2::lemma_pow2_pos(receiver.window_scale_shift_bits as nat);
    let free = receiver.free_space();
    vstd::arithmetic::div_mod::lemma_fundamental_div_mod(free, factor);
    vstd::arithmetic::div_mod::lemma_div_pos_is_pos(free, factor);
    let window = receiver.advertised_window();
    assert(0 <= window * factor <= (free / factor) * factor) by (nonlinear_arith)
        requires
            0 <= window <= free / factor,
            factor > 0,
    ;
    assert((free / factor) * factor == factor * (free / factor)) by (nonlinear_arith);
}

/// Catching up leaves alone what the application has read and what the receiver was set up with.
proof fn catching_up_keeps_settings(receiver: ReceiverView)
    ensures
        ({
            let later = receiver.caught_up();
            &&& later.window_scale_shift_bits == receiver.window_scale_shift_bits
            &&& later.reader_next_seq_no == receiver.reader_next_seq_no
            &&& later.buffer_size_bytes == receiver.buffer_size_bytes
            &&& later.ack_delay_timeout == receiver.ack_delay_timeout
            &&& later.ack_deadline == receiver.ack_deadline
        }),
    decreases receiver.out_of_order.len(),
{
    let i = first_frame_at(receiver.out_of_order, receiver.receive_next_seq_no);
    if 0 <= i < receiver.out_of_order.len() {
        let next = ReceiverView {
            out_of_order: receiver.out_of_order.remove(i),
            ..receiver.appended(receiver.out_of_order[i].data)
        };
        catching_up_keeps_settings(next);
        assert(receiver.caught_up() == next.caught_up());
    }
}

/// Taking in data, in order or early, keeps a receiver well-formed. What the application has
/// read and what the receiver was set up with stay as they are.
pub proof fn receiving_keeps_wf(
    receiver: ReceiverView,
    start: SeqNumber,
    end: SeqNumber,
    data: Seq<u8>,
)
    ensures
        ({
            let later = receiver.taken_in(start, end, data);
            &&& later.wf() == receiver.wf()
            &&& later.reader_next_seq_no == receiver.reader_next_seq_no
            &&& later.buffer_size_bytes == receiver.buffer_size_bytes
            &&& later.ack_delay_timeout == receiver.ack_delay_timeout
            &&& later.ack_deadline == receiver.ack_deadline
        }),
{
    catching_up_keeps_settings(receiver.appended(data));
}

/// Data that does not continue what has been received waits, behind whatever waits already. It
/// moves RCV.NXT nowhere and adds nothing to what has been received.
pub proof fn early_data_waits(
    receiver: ReceiverView,
    start: SeqNumber,
    end: SeqNumber,
    data: Seq<u8>,
)
    requires
        start != receiver.receive_next_seq_no,
    ensures
        ({
            let later = receiver.taken_in(start, end, data);
            &&& later.out_of_order.len() == receiver.out_of_order.len() + 1
            &&& later.out_of_order.drop_last() == receiver.out_of_order
            &&& later.out_of_order.last().start == start
            &&& later.out_of_order.last().end == end
            &&& later.out_of_order.last().data == data
            &&& later.received == receiver.received
            &&& later.receive_next_seq_no == receiver.receive_next_seq_no
        }),
{
    assert(receiver.taken_in(start, end, data).out_of_order.drop_last() =~= receiver.out_of_order);
}

/// Catching up only adds, moves RCV.NXT by as many bytes as it adds, takes nothing out of the
/// waiting frames but what it adds, and puts nothing into them.
proof fn catching_up_moves_frames(receiver: ReceiverView)
    ensures
        ({
            let later = receiver.caught_up();
            &&& receiver.received.is_prefix_of(later.received)
            &&& stream_of(later.received).len() >= stream_of(receiver.received).len()
            &&& later.receive_next_seq_no == receiver.receive_next_seq_no.advanced(
                stream_of(later.received).len() - stream_of(receiver.received).len(),
            )
            &&& forall|frame: FrameView| #[trigger]
                receiver.out_of_order.contains(frame) ==> later.out_of_order.contains(frame)
                    || later.received.contains(frame.data)
            &&& forall|frame: FrameView| #[trigger]
                later.out_of_order.contains(frame) ==> receiver.out_of_order.contains(frame)
        }),
    decreases receiver.out_of_order.len(),
{
    let frames = receiver.out_of_order;
    let later = receiver.caught_up();
    search_finds_first(frames, receiver.receive_next_seq_no);
    let k = first_frame_at(frames, receiver.receive_next_seq_no);
    if 0 <= k < frames.len() {
        let next = ReceiverView {
            out_of_order: frames.remove(k),
            ..receiver.appended(frames[k].data)
        };
        catching_up_moves_frames(next);
        assert(later == next.caught_up());
        assert(next.received.drop_last() =~= receiver.received);
        assert(stream_of(next.received) == stream_of(receiver.received) + frames[k].data);
        let first = frames[k].data.len() as int;
        let rest = stream_of(later.received).len() - stream_of(next.received).len();
        advancing_adds_up(receiver.receive_next_seq_no, first, rest);
        assert(receiver.received.is_prefix_of(next.received));
        assert(receiver.received.is_prefix_of(later.received));
        assert forall|frame: FrameView| #[trigger] frames.contains(frame) implies
            later.out_of_order.contains(frame) || later.received.contains(frame.data) by {
            let i = choose|i: int| 0 <= i < frames.len() && frames[i] == frame;
            if i == k {
                let n = receiver.received.len() as int;
                assert(next.received[n] == frame.data);
                assert(later.received[n] == frame.data);
            } else {
                let j = if i < k {
                    i
                } else {
                    i - 1
                };
                assert(next.out_of_order[j] == frame);
                assert(next.out_of_order.contains(frame));
            }
        }
        assert forall|frame: FrameView| #[trigger] later.out_of_order.contains(frame) implies
            frames.contains(frame) by {
            assert(next.out_of_order.contains(frame));
            let i = choose|i: int| 0 <= i < next.out_of_order.len() && next.out_of_order[i] == frame;
            let j = if i < k {
                i
            } else {
                i + 1
            };
            assert(frames[j] == frame);
        }
    } else {
        assert(later == receiver);
        advancing_undoes_difference(receiver.receive_next_seq_no, receiver.receive_next_seq_no, 0);
    }
}

/// Data that continues what has been received is received at once, behind it, whatever waits.
/// RCV.NXT moves by as many bytes as are received. A frame that waited goes on waiting unless it
/// has been received, or RCV.NXT has passed its start. No frame appears from nowhere.
pub proof fn data_in_order_is_received(receiver: ReceiverView, data: Seq<u8>)
    ensures
        ({
            let later = receiver.continued(data);
            let added = stream_of(later.received).len() - stream_of(receiver.received).len();
            &&& receiver.received.push(data).is_prefix_of(later.received)
            &&& added >= data.len()
            &&& later.receive_next_seq_no == receiver.receive_next_seq_no.advanced(added)
            &&& forall|frame: FrameView| #[trigger]
                receiver.out_of_order.contains(frame) ==> later.out_of_order.contains(frame)
                    || later.received.contains(frame.data) || frame.start.before(
                    later.receive_next_seq_no,
                )
            &&& forall|frame: FrameView| #[trigger]
                later.out_of_order.contains(frame) ==> receiver.out_of_order.contains(frame)
        }),
        receiver.taken_in(receiver.receive_next_seq_no, receiver.receive_next_seq_no, data)
            == receiver.continued(data),
{
    let next = receiver.appended(data);
    let caught_up = next.caught_up();
    let later = caught_up.pruned();
    assert(next.received.drop_last() =~= receiver.received);
    assert(stream_of(next.received) == stream_of(receiver.received) + data);
    catching_up_moves_frames(next);
    advancing_adds_up(
        receiver.receive_next_seq_no,
        data.len() as int,
        stream_of(later.received).len() - stream_of(next.received).len(),
    );
    let keep = starts_from(caught_up.receive_next_seq_no);
    assert forall|frame: FrameView| #[trigger] receiver.out_of_order.contains(frame) implies
        later.out_of_order.contains(frame) || later.received.contains(frame.data)
        || frame.start.before(later.receive_next_seq_no) by {
        assert(next.out_of_order.contains(frame));
        if caught_up.out_of_order.contains(frame) && !frame.start.before(
            later.receive_next_seq_no,
        ) {
            let i = choose|i: int|
                0 <= i < caught_up.out_of_order.len() && caught_up.out_of_order[i] == frame;
            caught_up.out_of_order.lemma_filter_contains(keep, i);
        }
    }
    assert forall|frame: FrameView| #[trigger] later.out_of_order.contains(frame) implies
        receiver.out_of_order.contains(frame) by {
        caught_up.out_of_order.lemma_filter_contains_rev(keep, frame);
    }
}

/// Once the data in front of a waiting frame has been taken in, the frame is received right
/// behind it. Of several frames with the same start it is the one that came first.
pub proof fn filled_hole_releases_frame(receiver: ReceiverView, data: Seq<u8>, k: int)
    requires
        0 <= k < receiver.out_of_order.len(),
        receiver.out_of_order[k].start == receiver.receive_next_seq_no.advanced(data.len() as int),
        forall|i: int|
            0 <= i < k ==> (#[trigger] receiver.out_of_order[i]).start
                != receiver.out_of_order[k].start,
    ensures
        ({
            let later = receiver.continued(data);
            let frame = receiver.out_of_order[k];
            &&& receiver.received.push(data).push(frame.data).is_prefix_of(later.received)
            &&& stream_of(later.received).len() >= stream_of(receiver.received).len() + data.len()
                + frame.data.len()
        }),
{
    let next = receiver.appended(data);
    let frames = receiver.out_of_order;
    search_finds_first(frames, next.receive_next_seq_no);
    let found = first_frame_at(frames, next.receive_next_seq_no);
    assert(found == k) by {
        if found < k {
            assert(frames[found].start == frames[k].start);
        }
    }
    let caught = ReceiverView {
        out_of_order: frames.remove(k),
        ..next.appended(frames[k].data)
    };
    assert(next.caught_up() == caught.caught_up());
    catching_up_moves_frames(caught);
    assert(next.received.drop_last() =~= receiver.received);
    assert(caught.received.drop_last() =~= next.received);
    assert(stream_of(next.received) == stream_of(receiver.received) + data);
    assert(stream_of(caught.received) == stream_of(next.received) + frames[k].data);
}

/// Early data is not lost: if a segment arrives early and the data that fills the hole in front
/// of it arrives next, both are received, in order.
pub proof fn early_data_is_not_lost(receiver: ReceiverView, early: FrameView, data: Seq<u8>)
    requires
        early.start != receiver.receive_next_seq_no,
        early.start == receiver.receive_next_seq_no.advanced(data.len() as int),
        forall|i: int|
            0 <= i < receiver.out_of_order.len() ==> (#[trigger] receiver.out_of_order[i]).start
                != early.start,
    ensures
        ({
            let waiting = receiver.taken_in(early.start, early.end, early.data);
            let later = waiting.taken_in(receiver.receive_next_seq_no, early.start, data);
            let added = stream_of(later.received).len() - stream_of(receiver.received).len();
            &&& receiver.received.push(data).push(early.data).is_prefix_of(later.received)
            &&& added >= data.len() + early.data.len()
            &&& later.receive_next_seq_no == receiver.receive_next_seq_no.advanced(added)
        }),
{
    let waiting = receiver.taken_in(early.start, early.end, early.data);
    early_data_waits(receiver, early.start, early.end, early.data);
    let k = receiver.out_of_order.len() as int;
    assert(waiting.out_of_order[k] == waiting.out_of_order.last());
    assert forall|i: int| 0 <= i < k implies (#[trigger] waiting.out_of_order[i]).start
        != waiting.out_of_order[k].start by {
        assert(waiting.out_of_order.drop_last()[i] == receiver.out_of_order[i]);
    }
    filled_hole_releases_frame(waiting, data, k);
    data_in_order_is_received(waiting, data);
}

/// The advertised window promises as much of the room as a header can express: rounded down to a
/// multiple of what the scale stands for, and at most 65535 of these. The room is what of the
/// buffer is not taken up by data that was received and not read.
pub proof fn window_promises_all_room(receiver: ReceiverView)
    requires
        receiver.wf(),
    ensures
        ({
            let unread = receiver.receive_next_seq_no.steps_from(receiver.reader_next_seq_no);
            let room = if unread <= receiver.buffer_size_bytes {
                receiver.buffer_size_bytes - unread
            } else {
                0
            };
            let unit = pow2(receiver.window_scale_shift_bits as nat) as int;
            let window = receiver.advertised_window();
            &&& 0 <= window <= 0xffff
            &&& window * unit <= room
            &&& window < 0xffff ==> room < (window + 1) * unit
        }),
{
    let unit = pow2(receiver.window_scale_shift_bits as nat) as int;
    vstd::arithmetic::power2::lemma_pow2_pos(receiver.window_scale_shift_bits as nat);
    let room = receiver.free_space();
    let window = receiver.advertised_window();
    window_promises_no_more_than_room(receiver);
    vstd::arithmetic::div_mod::lemma_fundamental_div_mod(room, unit);
    vstd::arithmetic::div_mod::lemma_mod_bound(room, unit);
    vstd::arithmetic::div_mod::lemma_div_pos_is_pos(room, unit);
    assert((room / unit + 1) * unit == unit * (room / unit) + unit) by (nonlinear_arith);
}

/// Whether the peer may still send: data is taken in until its FIN has arrived.
pub proof fn data_is_taken_in_until_fin(state: State)
    ensures
        receives_data(state) <==> state is Established || state is FinWait1 || state is FinWait2,
{
}

} // verus!

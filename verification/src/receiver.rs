//! The receiving half of ordered delivery: data that arrived in order, data that arrived
//! early, and the window that is advertised to the peer.
use crate::config::MAX_WINDOW_SCALE;
use crate::seq_number::SeqNumber;
use crate::time::{Duration, Instant};
use std::collections::VecDeque;
use vstd::arithmetic::power2::pow2;
use vstd::prelude::*;

verus! {

/// Data that arrived before data in front of it did.
#[derive(Clone, Debug, PartialEq, Eq)]
pub struct OutOfOrderFrame {
    pub start: SeqNumber,
    pub end: SeqNumber,
    pub data: Vec<u8>,
}

/// The contents of an [`OutOfOrderFrame`].
#[verifier::ext_equal]
pub struct FrameView {
    pub start: SeqNumber,
    pub end: SeqNumber,
    pub data: Seq<u8>,
}

impl View for OutOfOrderFrame {
    type V = FrameView;

    open spec fn view(&self) -> FrameView {
        FrameView { start: self.start, end: self.end, data: self.data@ }
    }
}

/// The receiving half of a connection.
#[derive(Clone, Debug, PartialEq, Eq)]
pub struct Receiver {
    /// The next sequence number that the application will read.
    pub reader_next_seq_no: SeqNumber,
    /// RCV.NXT: the next sequence number that is expected from the peer.
    pub receive_next_seq_no: SeqNumber,
    /// Data that arrived in order and was not read yet, oldest first.
    pub pop_queue: VecDeque<Vec<u8>>,
    /// Data that waits for the hole in front of it to be filled.
    pub out_of_order_frames: Vec<OutOfOrderFrame>,
    /// How long an acknowledgement may be delayed.
    pub ack_delay_timeout: Duration,
    /// When a delayed acknowledgement is due, if there is one.
    pub ack_deadline_time_secs: Option<Instant>,
    /// How many bytes may be received and not be read.
    pub buffer_size_bytes: u32,
    /// The window scale that was advertised to the peer.
    pub window_scale_shift_bits: u8,
}

/// The contents of a [`Receiver`].
#[verifier::ext_equal]
pub struct ReceiverView {
    pub reader_next_seq_no: SeqNumber,
    pub receive_next_seq_no: SeqNumber,
    pub received: Seq<Seq<u8>>,
    pub out_of_order: Seq<FrameView>,
    pub ack_delay_timeout: Duration,
    pub ack_deadline: Option<Instant>,
    pub buffer_size_bytes: u32,
    pub window_scale_shift_bits: u8,
}

impl View for Receiver {
    type V = ReceiverView;

    open spec fn view(&self) -> ReceiverView {
        ReceiverView {
            reader_next_seq_no: self.reader_next_seq_no,
            receive_next_seq_no: self.receive_next_seq_no,
            received: self.pop_queue@.map_values(|data: Vec<u8>| data@),
            out_of_order: self.out_of_order_frames@.map_values(|frame: OutOfOrderFrame| frame@),
            ack_delay_timeout: self.ack_delay_timeout,
            ack_deadline: self.ack_deadline_time_secs,
            buffer_size_bytes: self.buffer_size_bytes,
            window_scale_shift_bits: self.window_scale_shift_bits,
        }
    }
}

/// The position of the first frame that starts at `seq`, or the number of frames if none
/// does.
pub open spec fn first_frame_at(frames: Seq<FrameView>, seq: SeqNumber) -> int
    decreases frames.len(),
{
    if frames.len() == 0 || frames[0].start == seq {
        0
    } else {
        1 + first_frame_at(frames.drop_first(), seq)
    }
}

/// Whether a frame starts at `next` or later.
pub open spec fn starts_from(next: SeqNumber) -> spec_fn(FrameView) -> bool {
    |frame: FrameView| !frame.start.before(next)
}

impl ReceiverView {
    /// A receiver that has received nothing yet.
    pub open spec fn fresh(
        reader_next_seq_no: SeqNumber,
        receive_next_seq_no: SeqNumber,
        ack_delay_timeout: Duration,
        buffer_size_bytes: u32,
        window_scale_shift_bits: u8,
    ) -> ReceiverView {
        ReceiverView {
            reader_next_seq_no,
            receive_next_seq_no,
            received: Seq::empty(),
            out_of_order: Seq::empty(),
            ack_delay_timeout,
            ack_deadline: None,
            buffer_size_bytes,
            window_scale_shift_bits,
        }
    }

    /// The window scale is one that the protocol allows.
    pub open spec fn wf(self) -> bool {
        self.window_scale_shift_bits <= MAX_WINDOW_SCALE
    }

    /// The receiver with more data at the end of what arrived in order.
    pub open spec fn appended(self, data: Seq<u8>) -> ReceiverView {
        ReceiverView {
            receive_next_seq_no: self.receive_next_seq_no.advanced(data.len() as int),
            received: self.received.push(data),
            ..self
        }
    }

    /// The receiver once every waiting frame that has come into order is moved behind the
    /// data that arrived in order.
    pub open spec fn caught_up(self) -> ReceiverView
        decreases self.out_of_order.len(),
    {
        let i = first_frame_at(self.out_of_order, self.receive_next_seq_no);
        if 0 <= i < self.out_of_order.len() {
            ReceiverView {
                out_of_order: self.out_of_order.remove(i),
                ..self.appended(self.out_of_order[i].data)
            }.caught_up()
        } else {
            self
        }
    }

    /// The receiver without the frames that RCV.NXT has passed: their start has been received
    /// from another segment.
    pub open spec fn pruned(self) -> ReceiverView {
        ReceiverView {
            out_of_order: self.out_of_order.filter(starts_from(self.receive_next_seq_no)),
            ..self
        }
    }

    /// The receiver after data that starts at RCV.NXT.
    pub open spec fn continued(self, data: Seq<u8>) -> ReceiverView {
        self.appended(data).caught_up().pruned()
    }

    /// The receiver after a segment with data.
    pub open spec fn taken_in(
        self,
        start: SeqNumber,
        end: SeqNumber,
        data: Seq<u8>,
    ) -> ReceiverView {
        if start == self.receive_next_seq_no {
            self.continued(data)
        } else {
            self.stored(start, end, data)
        }
    }

    /// The receiver with one more frame waiting.
    pub open spec fn stored(
        self,
        start: SeqNumber,
        end: SeqNumber,
        data: Seq<u8>,
    ) -> ReceiverView {
        ReceiverView { out_of_order: self.out_of_order.push(FrameView { start, end, data }), ..self }
    }

    /// How many more bytes the receiver has room for.
    pub open spec fn free_space(self) -> int {
        let unread = self.receive_next_seq_no.steps_from(self.reader_next_seq_no);
        if unread <= self.buffer_size_bytes {
            self.buffer_size_bytes - unread
        } else {
            0
        }
    }

    /// The window field of an outgoing header: the free space, scaled down, as far as it
    /// fits.
    pub open spec fn advertised_window(self) -> int {
        let scaled = self.free_space() / pow2(self.window_scale_shift_bits as nat) as int;
        if scaled <= u16::MAX {
            scaled
        } else {
            u16::MAX as int
        }
    }
}

impl Receiver {
    pub fn new(
        reader_next_seq_no: SeqNumber,
        receive_next_seq_no: SeqNumber,
        ack_delay_timeout: Duration,
        buffer_size_bytes: u32,
        window_scale_shift_bits: u8,
    ) -> (receiver: Receiver)
        ensures
            receiver@ == ReceiverView::fresh(
                reader_next_seq_no,
                receive_next_seq_no,
                ack_delay_timeout,
                buffer_size_bytes,
                window_scale_shift_bits,
            ),
    {
        Receiver {
            reader_next_seq_no,
            receive_next_seq_no,
            pop_queue: VecDeque::new(),
            out_of_order_frames: Vec::new(),
            ack_delay_timeout,
            ack_deadline_time_secs: None,
            buffer_size_bytes,
            window_scale_shift_bits,
        }
    }

    /// The window to advertise in an outgoing header.
    pub fn hdr_window_size(&self) -> (window: u16)
        requires
            self@.wf(),
        ensures
            window == self@.advertised_window(),
    {
        let unread: u32 = self.receive_next_seq_no.minus(self.reader_next_seq_no);
        let free: u32 = self.buffer_size_bytes.saturating_sub(unread);
        let scaled: u32 = free >> (self.window_scale_shift_bits as u32);
        proof {
            vstd::bits::lemma_u32_shr_is_div(free, self.window_scale_shift_bits as u32);
        }
        if scaled <= u16::MAX as u32 {
            scaled as u16
        } else {
            u16::MAX
        }
    }

    /// Takes in data that starts at RCV.NXT, and with it all waiting frames that follow. Frames
    /// that RCV.NXT has passed are dropped.
    pub fn receive_data(&mut self, seg_start: SeqNumber, data: Vec<u8>)
        requires
            seg_start == old(self)@.receive_next_seq_no,
        ensures
            final(self)@ == old(self)@.continued(data@),
    {
        self.append_in_order(data);
        let mut i: usize = self.find_frame_at_next();
        while i < self.out_of_order_frames.len()
            invariant
                self@.caught_up() == old(self)@.appended(data@).caught_up(),
                i == first_frame_at(self@.out_of_order, self@.receive_next_seq_no),
            decreases self.out_of_order_frames.len(),
        {
            let ghost before = self@;
            let frame: OutOfOrderFrame = self.out_of_order_frames.remove(i);
            assert(self@.out_of_order =~= before.out_of_order.remove(i as int));
            assert(frame@ == before.out_of_order[i as int]);
            self.append_in_order(frame.data);
            i = self.find_frame_at_next();
        }
        self.drop_passed_frames();
    }

    /// Drops the waiting frames that RCV.NXT has passed.
    fn drop_passed_frames(&mut self)
        ensures
            final(self)@ == old(self)@.pruned(),
    {
        let next: SeqNumber = self.receive_next_seq_no;
        let ghost frames = self@.out_of_order;
        let ghost keep = starts_from(next);
        let ghost mut done: int = 0;
        let mut i: usize = 0;
        proof {
            reveal(Seq::filter);
            assert(frames.take(0).filter(keep) + frames.skip(0) =~= frames);
        }
        while i < self.out_of_order_frames.len()
            invariant
                0 <= done <= frames.len(),
                i == frames.take(done).filter(keep).len(),
                self@ == (ReceiverView {
                    out_of_order: frames.take(done).filter(keep) + frames.skip(done),
                    ..old(self)@
                }),
                frames == old(self)@.out_of_order,
                keep == starts_from(next),
                next == old(self)@.receive_next_seq_no,
            decreases self.out_of_order_frames.len() - i,
        {
            let ghost before = self@.out_of_order;
            proof {
                reveal(Seq::filter);
                assert(before[i as int] == frames.skip(done)[0]);
                assert(frames.take(done + 1).drop_last() =~= frames.take(done));
            }
            if self.out_of_order_frames[i].start.lt(next) {
                self.out_of_order_frames.remove(i);
                assert(self@.out_of_order =~= before.remove(i as int));
                assert(before.remove(i as int) =~= frames.take(done + 1).filter(keep)
                    + frames.skip(done + 1));
            } else {
                i = i + 1;
                assert(before =~= frames.take(done + 1).filter(keep) + frames.skip(done + 1));
            }
            proof {
                done = done + 1;
            }
        }
        assert(self@.out_of_order.len() == self.out_of_order_frames@.len());
        assert(frames.skip(done).len() == 0);
        assert(frames.take(done) =~= frames);
        assert(self@.out_of_order =~= frames.filter(keep));
    }

    /// Puts data behind what arrived in order.
    fn append_in_order(&mut self, data: Vec<u8>)
        ensures
            final(self)@ == old(self)@.appended(data@),
            final(self).out_of_order_frames == old(self).out_of_order_frames,
    {
        self.receive_next_seq_no = self.receive_next_seq_no.plus_len(data.len());
        self.pop_queue.push_back(data);
        assert(self@.received =~= old(self)@.received.push(data@));
    }

    /// Searches for a waiting frame that starts at RCV.NXT.
    fn find_frame_at_next(&self) -> (i: usize)
        ensures
            i == first_frame_at(self@.out_of_order, self@.receive_next_seq_no),
            i <= self@.out_of_order.len(),
    {
        let mut i: usize = 0;
        assert(self@.out_of_order.skip(0) =~= self@.out_of_order);
        while i < self.out_of_order_frames.len() && self.out_of_order_frames[i].start.value
            != self.receive_next_seq_no.value
            invariant
                i <= self.out_of_order_frames.len(),
                first_frame_at(self@.out_of_order, self@.receive_next_seq_no) == i
                    + first_frame_at(
                    self@.out_of_order.skip(i as int),
                    self@.receive_next_seq_no,
                ),
            decreases self.out_of_order_frames.len() - i,
        {
            assert(self@.out_of_order.skip(i as int).drop_first() =~= self@.out_of_order.skip(
                i + 1,
            ));
            i = i + 1;
        }
        i
    }

    /// Keeps data that starts behind RCV.NXT until the hole in front of it is filled.
    pub fn store_out_of_order_segment(
        &mut self,
        seg_start: SeqNumber,
        seg_end: SeqNumber,
        data: Vec<u8>,
    )
        ensures
            final(self)@ == old(self)@.stored(seg_start, seg_end, data@),
    {
        let frame: OutOfOrderFrame = OutOfOrderFrame { start: seg_start, end: seg_end, data };
        self.out_of_order_frames.push(frame);
        assert(self@.out_of_order =~= old(self)@.out_of_order.push(frame@));
    }
}

} // verus!

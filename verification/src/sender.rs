//! The sending half of ordered delivery: what has been sent, what of it is still
//! unacknowledged, and when to retransmit.
use crate::header::TcpHeader;
use crate::seq_number::{half_space, SeqNumber};
use crate::time::{Duration, Instant};
use std::collections::VecDeque;
use vstd::prelude::*;

verus! {

/// A segment that has been sent and not been acknowledged in full.
#[derive(Clone, Debug, PartialEq, Eq)]
pub struct UnackedSegment {
    /// The unacknowledged data. A FIN, which carries none, has no bytes at all.
    pub bytes: Option<Vec<u8>>,
    /// When the segment was sent for the first time, if it can still serve as a sample of
    /// the round-trip time.
    pub initial_tx: Option<Instant>,
}

/// The contents of an [`UnackedSegment`].
#[verifier::ext_equal]
pub struct UnackedView {
    pub bytes: Option<Seq<u8>>,
    pub initial_tx: Option<Instant>,
}

impl View for UnackedSegment {
    type V = UnackedView;

    open spec fn view(&self) -> UnackedView {
        UnackedView {
            bytes: match self.bytes {
                Some(bytes) => Some(bytes@),
                None => None,
            },
            initial_tx: self.initial_tx,
        }
    }
}

impl UnackedView {
    /// How many sequence numbers the segment takes up. A FIN takes up one.
    pub open spec fn span(self) -> int {
        match self.bytes {
            Some(bytes) => bytes.len() as int,
            None => 1,
        }
    }

    pub open spec fn is_fin(self) -> bool {
        self.bytes is None
    }
}

/// What the segments of a queue hold.
pub open spec fn segment_views(queue: Seq<UnackedSegment>) -> Seq<UnackedView> {
    queue.map_values(|segment: UnackedSegment| segment@)
}

/// How many sequence numbers the segments of a queue take up together.
pub open spec fn total_span(queue: Seq<UnackedView>) -> int
    decreases queue.len(),
{
    if queue.len() == 0 {
        0
    } else {
        queue[0].span() + total_span(queue.drop_first())
    }
}

/// What is left of a queue once its first `acked` sequence numbers are acknowledged.
/// A segment that is acknowledged in part keeps its tail, and no longer serves as a sample
/// of the round-trip time.
pub open spec fn remaining_after(queue: Seq<UnackedView>, acked: int) -> Seq<UnackedView>
    decreases queue.len(),
{
    if queue.len() == 0 || acked <= 0 {
        queue
    } else if queue[0].span() <= acked {
        remaining_after(queue.drop_first(), acked - queue[0].span())
    } else {
        seq![
            UnackedView { bytes: Some(queue[0].bytes->0.skip(acked)), initial_tx: None },
        ] + queue.drop_first()
    }
}

/// When the oldest segment of a queue is to be retransmitted.
pub open spec fn deadline_for(
    queue: Seq<UnackedView>,
    rto: Duration,
    now: Instant,
) -> Option<Instant> {
    if queue.len() == 0 {
        None
    } else {
        match queue[0].initial_tx {
            Some(initial_tx) => Some(initial_tx.later_by(rto)),
            None => Some(now.later_by(rto)),
        }
    }
}

/// The sending half of a connection.
#[derive(Clone, Debug, PartialEq, Eq)]
pub struct Sender {
    /// SND.UNA: the oldest sequence number that has not been acknowledged.
    pub send_unacked: SeqNumber,
    /// SND.NXT: the next sequence number to send.
    pub send_next_seq_no: SeqNumber,
    /// The sent segments from SND.UNA on, oldest first.
    pub unacked_queue: VecDeque<UnackedSegment>,
    /// Buffers that have not been sent yet, oldest first.
    pub unsent_queue: VecDeque<Vec<u8>>,
    /// The sequence number of our FIN, once there is one.
    pub sender_fin_seq_no: Option<SeqNumber>,
    /// When to retransmit, if anything is outstanding.
    pub retransmit_deadline_time_secs: Option<Instant>,
}

/// The contents of a [`Sender`].
#[verifier::ext_equal]
pub struct SenderView {
    pub send_unacked: SeqNumber,
    pub send_next_seq_no: SeqNumber,
    pub unacked: Seq<UnackedView>,
    pub unsent: Seq<Seq<u8>>,
    pub sender_fin_seq_no: Option<SeqNumber>,
    pub retransmit_deadline: Option<Instant>,
}

impl View for Sender {
    type V = SenderView;

    open spec fn view(&self) -> SenderView {
        SenderView {
            send_unacked: self.send_unacked,
            send_next_seq_no: self.send_next_seq_no,
            unacked: segment_views(self.unacked_queue@),
            unsent: self.unsent_queue@.map_values(|buffer: Vec<u8>| buffer@),
            sender_fin_seq_no: self.sender_fin_seq_no,
            retransmit_deadline: self.retransmit_deadline_time_secs,
        }
    }
}

impl SenderView {
    /// A sender that has sent nothing yet and will send `seq_no` first.
    pub open spec fn fresh(seq_no: SeqNumber) -> SenderView {
        SenderView {
            send_unacked: seq_no,
            send_next_seq_no: seq_no,
            unacked: Seq::empty(),
            unsent: Seq::empty(),
            sender_fin_seq_no: None,
            retransmit_deadline: None,
        }
    }

    /// How many sequence numbers are in flight: SND.NXT - SND.UNA.
    pub open spec fn in_flight(self) -> int {
        self.send_next_seq_no.steps_from(self.send_unacked)
    }

    /// The queue of unacknowledged segments covers exactly the sequence numbers in flight,
    /// which are less than half of the sequence space. No data segment is empty. A FIN is
    /// the last segment, and holds the sequence number noted for it.
    pub open spec fn wf(self) -> bool {
        &&& total_span(self.unacked) == self.in_flight()
        &&& self.in_flight() < half_space()
        &&& forall|i: int| 0 <= i < self.unacked.len() ==> #[trigger] self.unacked[i].span() > 0
        &&& forall|i: int|
            0 <= i < self.unacked.len() && #[trigger] self.unacked[i].is_fin() ==> {
                &&& i == self.unacked.len() - 1
                &&& self.sender_fin_seq_no is Some
                &&& self.sender_fin_seq_no->0.advanced(1) == self.send_next_seq_no
            }
    }

    /// Whether an acknowledgement number is one that the peer can send: not above SND.NXT.
    pub open spec fn can_be_acked(self, ack_num: SeqNumber) -> bool {
        self.send_unacked.before(ack_num) ==> ack_num.steps_from(self.send_unacked)
            <= self.in_flight()
    }

    /// How many sequence numbers `ack_num` acknowledges for the first time.
    pub open spec fn newly_acked(self, ack_num: SeqNumber) -> int {
        if self.send_unacked.before(ack_num) {
            ack_num.steps_from(self.send_unacked)
        } else {
            0
        }
    }

    /// The sender after an acknowledgement.
    pub open spec fn acknowledged(
        self,
        ack_num: SeqNumber,
        rto: Duration,
        now: Instant,
    ) -> SenderView {
        if self.send_unacked.before(ack_num) {
            let left = remaining_after(self.unacked, self.newly_acked(ack_num));
            SenderView {
                send_unacked: ack_num,
                unacked: left,
                retransmit_deadline: deadline_for(left, rto, now),
                ..self
            }
        } else {
            self
        }
    }

    /// The sender after data has been sent for the first time.
    pub open spec fn sent(self, bytes: Seq<u8>, now: Instant) -> SenderView {
        SenderView {
            send_next_seq_no: self.send_next_seq_no.advanced(bytes.len() as int),
            unacked: self.unacked.push(
                UnackedView { bytes: Some(bytes), initial_tx: Some(now) },
            ),
            ..self
        }
    }

    /// The sender with its retransmission timer running.
    pub open spec fn armed(self, rto: Duration, now: Instant) -> SenderView {
        SenderView {
            retransmit_deadline: match self.retransmit_deadline {
                Some(deadline) => Some(deadline),
                None => Some(now.later_by(rto)),
            },
            ..self
        }
    }
}

impl SenderView {
    /// The sender after its oldest unacknowledged segment has been sent again. The segment no
    /// longer serves as a sample of the round-trip time, and the retransmission timer starts
    /// anew. With nothing unacknowledged the timer stops.
    pub open spec fn retransmitted(self, rto: Duration, now: Instant) -> SenderView {
        if self.unacked.len() == 0 {
            SenderView { retransmit_deadline: None, ..self }
        } else {
            SenderView {
                unacked: self.unacked.update(
                    0,
                    UnackedView { initial_tx: None, ..self.unacked[0] },
                ),
                retransmit_deadline: Some(now.later_by(rto)),
                ..self
            }
        }
    }
}

impl Sender {
    /// A sender that starts at the given sequence number.
    pub fn new(seq_no: SeqNumber) -> (sender: Sender)
        ensures
            sender@ == SenderView::fresh(seq_no),
    {
        Sender {
            send_unacked: seq_no,
            send_next_seq_no: seq_no,
            unacked_queue: VecDeque::new(),
            unsent_queue: VecDeque::new(),
            sender_fin_seq_no: None,
            retransmit_deadline_time_secs: None,
        }
    }

    /// Processes the acknowledgement number of a segment: removes what it acknowledges from
    /// the queue and restarts the retransmission timer. A number that acknowledges nothing
    /// new changes nothing.
    pub fn process_ack_state_change(&mut self, rto: Duration, header: &TcpHeader, now: Instant)
        ensures
            final(self)@ == old(self)@.acknowledged(header@.ack_num, rto, now),
    {
        if self.send_unacked.lt(header.ack_num) {
            let acked: u32 = header.ack_num.minus(self.send_unacked);
            self.remove_acked(acked as usize);
            self.send_unacked = header.ack_num;
            let deadline: Option<Instant> = if self.unacked_queue.len() == 0 {
                None
            } else {
                match self.unacked_queue[0].initial_tx {
                    Some(initial_tx) => Some(initial_tx.after(rto)),
                    None => Some(now.after(rto)),
                }
            };
            self.retransmit_deadline_time_secs = deadline;
        }
    }

    /// Removes the first `acked` sequence numbers from the queue.
    fn remove_acked(&mut self, acked: usize)
        ensures
            final(self)@ == (SenderView {
                unacked: remaining_after(old(self)@.unacked, acked as int),
                ..old(self)@
            }),
    {
        let mut remaining: usize = acked;
        while remaining > 0 && self.unacked_queue.len() > 0
            invariant
                remaining_after(self@.unacked, remaining as int) == remaining_after(
                    old(self)@.unacked,
                    acked as int,
                ),
                self@ == (SenderView { unacked: self@.unacked, ..old(self)@ }),
            decreases remaining, self.unacked_queue.len(),
        {
            let ghost before = self.unacked_queue@;
            match self.unacked_queue.pop_front() {
                Some(segment) => {
                    assert(segment_views(self.unacked_queue@) =~= segment_views(
                        before,
                    ).drop_first());
                    assert(segment_views(before)[0] == segment@);
                    match segment.bytes {
                        None => {
                            remaining = remaining - 1;
                        },
                        Some(mut bytes) => {
                            if bytes.len() <= remaining {
                                remaining = remaining - bytes.len();
                            } else {
                                let ghost whole = bytes@;
                                let tail: Vec<u8> = bytes.split_off(remaining);
                                assert(tail@ =~= whole.skip(remaining as int));
                                let ghost rest = self.unacked_queue@;
                                self.unacked_queue.push_front(
                                    UnackedSegment { bytes: Some(tail), initial_tx: None },
                                );
                                assert(segment_views(self.unacked_queue@) =~= remaining_after(
                                    segment_views(before),
                                    remaining as int,
                                ));
                                remaining = 0;
                            }
                        },
                    }
                },
                None => {},
            }
        }
    }

    /// Takes note of data that is being sent for the first time.
    pub fn note_sent(&mut self, bytes: Vec<u8>, now: Instant)
        ensures
            final(self)@ == old(self)@.sent(bytes@, now),
    {
        self.send_next_seq_no = self.send_next_seq_no.plus_len(bytes.len());
        let ghost before = self.unacked_queue@;
        let segment: UnackedSegment = UnackedSegment { bytes: Some(bytes), initial_tx: Some(now) };
        self.unacked_queue.push_back(segment);
        assert(segment_views(self.unacked_queue@) =~= segment_views(before).push(segment@));
    }

    /// Starts the retransmission timer unless it is running.
    pub fn arm_retransmit_timer(&mut self, rto: Duration, now: Instant)
        ensures
            final(self)@ == old(self)@.armed(rto, now),
    {
        match self.retransmit_deadline_time_secs {
            Some(_) => {},
            None => {
                self.retransmit_deadline_time_secs = Some(now.after(rto));
            },
        }
    }

    /// Takes note that the oldest unacknowledged segment, if there is one, is being sent again.
    pub fn note_retransmitted(&mut self, rto: Duration, now: Instant)
        ensures
            final(self)@ == old(self)@.retransmitted(rto, now),
    {
        let ghost before = self.unacked_queue@;
        match self.unacked_queue.pop_front() {
            Some(first) => {
                assert(segment_views(before)[0] == first@);
                let segment: UnackedSegment = UnackedSegment {
                    bytes: first.bytes,
                    initial_tx: None,
                };
                self.unacked_queue.push_front(segment);
                self.retransmit_deadline_time_secs = Some(now.after(rto));
                assert(segment_views(self.unacked_queue@) =~= segment_views(before).update(
                    0,
                    segment@,
                ));
            },
            None => {
                self.retransmit_deadline_time_secs = None;
            },
        }
    }

    /// Queues a buffer to be sent.
    pub fn push_unsent(&mut self, buffer: Vec<u8>)
        ensures
            final(self)@ == (SenderView { unsent: old(self)@.unsent.push(buffer@), ..old(self)@ }),
    {
        self.unsent_queue.push_back(buffer);
        assert(self@.unsent =~= old(self)@.unsent.push(buffer@));
    }

    /// Takes the next buffer to be sent out of the queue.
    pub fn pop_unsent(&mut self) -> (buffer: Option<Vec<u8>>)
        ensures
            match buffer {
                Some(bytes) => {
                    &&& old(self)@.unsent.len() > 0
                    &&& bytes@ == old(self)@.unsent[0]
                    &&& final(self)@ == (SenderView {
                        unsent: old(self)@.unsent.drop_first(),
                        ..old(self)@
                    })
                },
                None => {
                    &&& old(self)@.unsent.len() == 0
                    &&& final(self)@ == old(self)@
                },
            },
    {
        let buffer: Option<Vec<u8>> = self.unsent_queue.pop_front();
        proof {
            if buffer is Some {
                assert(self@.unsent =~= old(self)@.unsent.drop_first());
            } else {
                assert(self@.unsent =~= old(self)@.unsent);
            }
        }
        buffer
    }
}

} // verus!

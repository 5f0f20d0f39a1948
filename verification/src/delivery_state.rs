//! Ordered delivery: the sending and the receiving half of a connection.
use crate::connection_management_state::ConnectionManagementState;
use crate::ctrlblk::State;
use crate::fail::Fail;
use crate::header::{HeaderView, OutgoingSegment, SegmentView, TcpHeader};
use crate::receiver::{Receiver, ReceiverView};
use crate::sender::{Sender, SenderView};
use crate::seq_number::SeqNumber;
use crate::time::{Duration, Instant};
use vstd::prelude::*;

verus! {

/// The state of both halves of a connection. Functions that touch only one half belong to
/// that half.
#[derive(Clone, Debug, PartialEq, Eq)]
pub struct DeliveryState {
    pub sender: Sender,
    pub receiver: Receiver,
}

/// The contents of a [`DeliveryState`].
#[verifier::ext_equal]
pub struct DeliveryView {
    pub sender: SenderView,
    pub receiver: ReceiverView,
}

impl View for DeliveryState {
    type V = DeliveryView;

    open spec fn view(&self) -> DeliveryView {
        DeliveryView { sender: self.sender@, receiver: self.receiver@ }
    }
}

/// What the handshake reports when the peer acknowledges something other than our SYN.
pub open spec fn unexpected_ack_cause() -> Seq<char> {
    "unexpected acknowledgement number in SYN+ACK"@
}

/// Whether a connection still takes in data in this state: the peer's FIN has not arrived.
pub open spec fn receives_data(state: State) -> bool {
    state == State::Established || state == State::FinWait1 || state == State::FinWait2
}

/// The header of a segment on an established connection. It always acknowledges what has
/// been received.
pub open spec fn connection_header(
    cm: ConnectionManagementState,
    delivery: DeliveryView,
    seq_num: SeqNumber,
) -> HeaderView {
    HeaderView {
        seq_num,
        ack: true,
        ack_num: delivery.receiver.receive_next_seq_no,
        window_size: delivery.receiver.advertised_window() as u16,
        ..HeaderView::blank(cm.local.port, cm.remote.port)
    }
}

/// A segment from the local to the remote end of a connection.
pub open spec fn connection_segment(
    cm: ConnectionManagementState,
    header: HeaderView,
    payload: Seq<u8>,
) -> SegmentView {
    SegmentView {
        source: cm.local.ip,
        destination: cm.remote.ip,
        checksum_offload: cm.tcp_config.tx_checksum_offload,
        header,
        payload,
    }
}

impl DeliveryView {
    /// The state at the start of a connection.
    pub open spec fn fresh(
        sender_seq_no: SeqNumber,
        receive_seq_no: SeqNumber,
        ack_delay_timeout: Duration,
        window_size_bytes: u32,
        window_scale_bits: u8,
    ) -> DeliveryView {
        DeliveryView {
            sender: SenderView::fresh(sender_seq_no),
            receiver: ReceiverView::fresh(
                receive_seq_no,
                receive_seq_no,
                ack_delay_timeout,
                window_size_bytes,
                window_scale_bits,
            ),
        }
    }

    /// The state once the initial sequence number of the peer is known.
    pub open spec fn synchronized(self, remote_isn: SeqNumber) -> DeliveryView {
        DeliveryView {
            receiver: ReceiverView {
                reader_next_seq_no: remote_isn.advanced(1),
                receive_next_seq_no: remote_isn.advanced(1),
                ..self.receiver
            },
            ..self
        }
    }

    /// How many bytes of a buffer go into the next segment.
    pub open spec fn segment_len(buffer: Seq<u8>, max_frame_size_bytes: int) -> int {
        if buffer.len() <= max_frame_size_bytes {
            buffer.len() as int
        } else {
            max_frame_size_bytes
        }
    }

    /// The segment that carries the first `n` bytes of a buffer. It asks the peer to push the
    /// data to the application if nothing of the buffer is left.
    pub open spec fn data_segment(
        self,
        cm: ConnectionManagementState,
        buffer: Seq<u8>,
        n: int,
    ) -> SegmentView {
        connection_segment(
            cm,
            HeaderView {
                psh: n == buffer.len(),
                ..connection_header(cm, self, self.sender.send_next_seq_no)
            },
            buffer.take(n),
        )
    }

    /// The state after the first `n` bytes of a buffer have been sent.
    pub open spec fn transmitted(
        self,
        buffer: Seq<u8>,
        n: int,
        rto: Duration,
        now: Instant,
    ) -> DeliveryView {
        DeliveryView { sender: self.sender.sent(buffer.take(n), now).armed(rto, now), ..self }
    }
}

impl DeliveryView {
    /// The segment that repeats the oldest unacknowledged one, if there is one. Data is to be
    /// pushed to the application, and a FIN is a FIN again.
    pub open spec fn retransmission(self, cm: ConnectionManagementState) -> Option<SegmentView> {
        if self.sender.unacked.len() == 0 {
            None
        } else {
            let header = connection_header(cm, self, self.sender.send_unacked);
            Some(
                match self.sender.unacked[0].bytes {
                    Some(bytes) => connection_segment(cm, HeaderView { psh: true, ..header }, bytes),
                    None => connection_segment(
                        cm,
                        HeaderView { fin: true, ..header },
                        Seq::empty(),
                    ),
                },
            )
        }
    }
}

/// How long to wait for an answer to the first window probe: one second.
pub const FIRST_PROBE_TIMEOUT_NANOS: u64 = 1_000_000_000;

/// How long to wait for an answer to a window probe, given how long the last wait was, if
/// there was one: twice as long, as far as it fits.
pub open spec fn probe_timeout(last: Option<Duration>) -> Duration {
    match last {
        None => Duration { nanos: FIRST_PROBE_TIMEOUT_NANOS },
        Some(last) => Duration {
            nanos: if 2 * last.nanos <= u64::MAX {
                (2 * last.nanos) as u64
            } else {
                u64::MAX
            },
        },
    }
}

/// The wait for an answer to the next window probe.
pub fn next_probe_timeout(last: Option<Duration>) -> (timeout: Duration)
    ensures
        timeout == probe_timeout(last),
{
    match last {
        None => Duration { nanos: FIRST_PROBE_TIMEOUT_NANOS },
        Some(last) => Duration { nanos: last.nanos.saturating_add(last.nanos) },
    }
}

/// A copy of some bytes.
fn copy_bytes(bytes: &Vec<u8>) -> (copy: Vec<u8>)
    ensures
        copy@ == bytes@,
{
    let mut copy: Vec<u8> = Vec::new();
    let mut i: usize = 0;
    while i < bytes.len()
        invariant
            i <= bytes.len(),
            copy@ == bytes@.take(i as int),
        decreases bytes.len() - i,
    {
        copy.push(bytes[i]);
        i = i + 1;
        assert(bytes@.take(i as int) =~= bytes@.take(i - 1).push(bytes@[i - 1]));
    }
    assert(bytes@.take(i as int) =~= bytes@);
    copy
}

/// Takes the first `n` bytes off a buffer.
pub(crate) fn split_front(buffer: &mut Vec<u8>, n: usize) -> (front: Vec<u8>)
    requires
        n <= old(buffer)@.len(),
    ensures
        front@ == old(buffer)@.take(n as int),
        final(buffer)@ == old(buffer)@.skip(n as int),
{
    let mut rest: Vec<u8> = buffer.split_off(n);
    std::mem::swap(buffer, &mut rest);
    rest
}

impl DeliveryState {
    pub fn new(sender: Sender, receiver: Receiver) -> (state: Self)
        ensures
            state.sender == sender,
            state.receiver == receiver,
    {
        DeliveryState { sender, receiver }
    }

    /// The state of a connection that starts with the given sequence numbers.
    pub fn starting_at(
        sender_seq_no: SeqNumber,
        reader_next_seq_no: SeqNumber,
        receive_next_seq_no: SeqNumber,
        ack_delay_timeout: Duration,
        window_size_bytes: u32,
        window_scale_bits: u8,
    ) -> (state: Self)
        ensures
            state@ == (DeliveryView {
                sender: SenderView::fresh(sender_seq_no),
                receiver: ReceiverView::fresh(
                    reader_next_seq_no,
                    receive_next_seq_no,
                    ack_delay_timeout,
                    window_size_bytes,
                    window_scale_bits,
                ),
            }),
    {
        DeliveryState::new(
            Sender::new(sender_seq_no),
            Receiver::new(
                reader_next_seq_no,
                receive_next_seq_no,
                ack_delay_timeout,
                window_size_bytes,
                window_scale_bits,
            ),
        )
    }

    /// The peer's SYN has arrived while listening: what it sends next follows its initial
    /// sequence number.
    pub fn on_syn_in_listen(&mut self, remote_isn: SeqNumber)
        ensures
            final(self)@ == old(self)@.synchronized(remote_isn),
    {
        self.receiver.reader_next_seq_no = remote_isn.plus(1);
        self.receiver.receive_next_seq_no = remote_isn.plus(1);
    }

    /// A SYN+ACK has arrived in answer to our SYN. It is taken if and only if it acknowledges
    /// the SYN.
    pub fn on_synack_in_synsent(
        &mut self,
        remote_isn: SeqNumber,
        local_isn: SeqNumber,
        ack_num: SeqNumber,
    ) -> (result: Result<(), &'static str>)
        ensures
            match result {
                Ok(_) => {
                    &&& ack_num == local_isn.advanced(1)
                    &&& final(self)@ == old(self)@.synchronized(remote_isn)
                },
                Err(cause) => {
                    &&& ack_num != local_isn.advanced(1)
                    &&& cause@ == unexpected_ack_cause()
                    &&& *final(self) == *old(self)
                },
            },
    {
        if ack_num != local_isn.plus(1) {
            return Err("unexpected acknowledgement number in SYN+ACK");
        }
        self.receiver.reader_next_seq_no = remote_isn.plus(1);
        self.receiver.receive_next_seq_no = remote_isn.plus(1);
        Ok(())
    }

    /// The header of a segment that starts at `seq_num`, or at SND.NXT if none is given.
    pub fn tcp_header(
        &self,
        connection_management: &ConnectionManagementState,
        seq_num: Option<SeqNumber>,
    ) -> (header: TcpHeader)
        requires
            self@.receiver.wf(),
        ensures
            header@ == connection_header(
                *connection_management,
                self@,
                match seq_num {
                    Some(seq) => seq,
                    None => self@.sender.send_next_seq_no,
                },
            ),
    {
        let mut header: TcpHeader = TcpHeader::new(
            connection_management.local.port,
            connection_management.remote.port,
        );
        header.ack = true;
        header.ack_num = self.receiver.receive_next_seq_no;
        header.window_size = self.receiver.hdr_window_size();
        header.seq_num = match seq_num {
            Some(seq) => seq,
            None => self.sender.send_next_seq_no,
        };
        header
    }

    /// Makes up a segment for our peer, with an empty payload if there is no body. Segments on
    /// a connection always acknowledge. The network layer's answer to the segment is to be
    /// handed to [`DeliveryState::on_emit_result`].
    pub fn emit(
        &self,
        connection_management: &ConnectionManagementState,
        header: TcpHeader,
        body: Option<Vec<u8>>,
    ) -> (segment: OutgoingSegment)
        requires
            header@.ack,
        ensures
            segment@ == connection_segment(
                *connection_management,
                header@,
                match body {
                    Some(bytes) => bytes@,
                    None => Seq::empty(),
                },
            ),
    {
        let payload: Vec<u8> = match body {
            Some(bytes) => bytes,
            None => Vec::new(),
        };
        OutgoingSegment {
            source: connection_management.local.ip,
            destination: connection_management.remote.ip,
            checksum_offload: connection_management.tcp_config.tx_checksum_offload,
            header,
            payload,
        }
    }

    /// The network layer has taken a segment, or failed to. A segment that is on its way
    /// carries an acknowledgement, so a delayed one is no longer due.
    pub fn on_emit_result(&mut self, sent: bool)
        ensures
            final(self)@ == (DeliveryView {
                receiver: ReceiverView {
                    ack_deadline: if sent {
                        None
                    } else {
                        old(self)@.receiver.ack_deadline
                    },
                    ..old(self)@.receiver
                },
                ..old(self)@
            }),
    {
        if sent {
            self.receiver.ack_deadline_time_secs = None;
        }
    }

    /// Makes up an ACK that reflects our current state.
    pub fn send_ack(
        &self,
        connection_management: &ConnectionManagementState,
    ) -> (segment: OutgoingSegment)
        requires
            self@.receiver.wf(),
        ensures
            segment@ == connection_segment(
                *connection_management,
                connection_header(*connection_management, self@, self@.sender.send_next_seq_no),
                Seq::empty(),
            ),
    {
        let header: TcpHeader = self.tcp_header(connection_management, None);
        self.emit(connection_management, header, None)
    }

    /// Takes in the data of a segment. Data that comes after the peer's FIN is ignored, data
    /// in order is received, and data out of order is kept for later. The latter is answered
    /// with the returned ACK, which helps the peer to retransmit early.
    pub fn handle_data(
        &mut self,
        connection_management: &ConnectionManagementState,
        data: Vec<u8>,
        seg_start: SeqNumber,
        seg_end: SeqNumber,
        seg_len: u32,
    ) -> (result: Result<Option<OutgoingSegment>, Fail>)
        requires
            receives_data(connection_management.state) && seg_start
                != old(self)@.receiver.receive_next_seq_no ==> {
                &&& old(self)@.receiver.wf()
                &&& seg_len != 0
                &&& seg_len == data@.len() as u32
            },
        ensures
            result is Ok,
            final(self)@.sender == old(self)@.sender,
            !receives_data(connection_management.state) ==> {
                &&& result->Ok_0 is None
                &&& final(self)@.receiver == old(self)@.receiver
            },
            receives_data(connection_management.state) ==> final(self)@.receiver
                == old(self)@.receiver.taken_in(seg_start, seg_end, data@),
            receives_data(connection_management.state) && seg_start
                == old(self)@.receiver.receive_next_seq_no ==> result->Ok_0 is None,
            receives_data(connection_management.state) && seg_start
                != old(self)@.receiver.receive_next_seq_no ==> {
                &&& result->Ok_0 is Some
                &&& result->Ok_0->0@ == connection_segment(
                    *connection_management,
                    connection_header(
                        *connection_management,
                        final(self)@,
                        final(self)@.sender.send_next_seq_no,
                    ),
                    Seq::empty(),
                )
            },
    {
        match connection_management.state {
            State::Established | State::FinWait1 | State::FinWait2 => {},
            _ => {
                return Ok(None);
            },
        }
        if seg_start == self.receiver.receive_next_seq_no {
            self.receiver.receive_data(seg_start, data);
            return Ok(None);
        }
        self.receiver.store_out_of_order_segment(seg_start, seg_end, data);
        Ok(Some(self.send_ack(connection_management)))
    }

    /// Processes the acknowledgement number of a segment.
    pub fn process_ack_state_change(&mut self, rto: Duration, header: &TcpHeader, now: Instant)
        ensures
            final(self)@ == (DeliveryView {
                sender: old(self)@.sender.acknowledged(header@.ack_num, rto, now),
                ..old(self)@
            }),
    {
        self.sender.process_ack_state_change(rto, header, now);
    }

    /// Sends as much of a buffer as the frame size allows. Returns the segment that carries
    /// it, or nothing if the frame size allows nothing, and takes the sent bytes off the
    /// buffer.
    pub fn transmit_segment(
        &mut self,
        connection_management: &ConnectionManagementState,
        rto: Duration,
        now: Instant,
        buffer: &mut Vec<u8>,
        max_frame_size_bytes: usize,
    ) -> (segment: Option<OutgoingSegment>)
        requires
            old(self)@.receiver.wf(),
        ensures
            max_frame_size_bytes == 0 ==> {
                &&& segment is None
                &&& final(self)@ == old(self)@
                &&& final(buffer)@ == old(buffer)@
            },
            max_frame_size_bytes > 0 ==> {
                let n = DeliveryView::segment_len(old(buffer)@, max_frame_size_bytes as int);
                &&& segment is Some
                &&& segment->0@ == old(self)@.data_segment(
                    *connection_management,
                    old(buffer)@,
                    n,
                )
                &&& final(self)@ == old(self)@.transmitted(old(buffer)@, n, rto, now)
                &&& final(buffer)@ == old(buffer)@.skip(n)
            },
    {
        if max_frame_size_bytes == 0 {
            return None;
        }
        let len: usize = buffer.len();
        let n: usize = if len <= max_frame_size_bytes {
            len
        } else {
            max_frame_size_bytes
        };
        let payload: Vec<u8> = split_front(buffer, n);
        let mut header: TcpHeader = self.tcp_header(
            connection_management,
            Some(self.sender.send_next_seq_no),
        );
        header.psh = n == len;
        let copy: Vec<u8> = copy_bytes(&payload);
        let segment: OutgoingSegment = self.emit(connection_management, header, Some(payload));
        self.sender.note_sent(copy, now);
        self.sender.arm_retransmit_timer(rto, now);
        Some(segment)
    }

    /// Sends the oldest unacknowledged segment again. Returns it, or nothing if everything has
    /// been acknowledged, and restarts the retransmission timer.
    pub fn retransmit(
        &mut self,
        connection_management: &ConnectionManagementState,
        rto: Duration,
        now: Instant,
    ) -> (segment: Option<OutgoingSegment>)
        requires
            old(self)@.receiver.wf(),
        ensures
            match segment {
                Some(segment) => old(self)@.retransmission(*connection_management) == Some(
                    segment@,
                ),
                None => old(self)@.retransmission(*connection_management) is None,
            },
            final(self)@ == (DeliveryView {
                sender: old(self)@.sender.retransmitted(rto, now),
                ..old(self)@
            }),
    {
        if self.sender.unacked_queue.len() == 0 {
            self.sender.note_retransmitted(rto, now);
            return None;
        }
        assert(self@.sender.unacked[0] == self.sender.unacked_queue@[0]@);
        let mut header: TcpHeader = self.tcp_header(
            connection_management,
            Some(self.sender.send_unacked),
        );
        let body: Option<Vec<u8>> = match &self.sender.unacked_queue[0].bytes {
            Some(bytes) => {
                header.psh = true;
                Some(copy_bytes(bytes))
            },
            None => {
                header.fin = true;
                None
            },
        };
        let segment: OutgoingSegment = self.emit(connection_management, header, body);
        self.sender.note_retransmitted(rto, now);
        Some(segment)
    }

    /// Sends a window probe: one byte that makes the peer report its window. Returns the
    /// probe, which is to be repeated until the window opens.
    pub fn send_window_probe(
        &mut self,
        connection_management: &ConnectionManagementState,
        now: Instant,
        probe: Vec<u8>,
    ) -> (segment: OutgoingSegment)
        requires
            old(self)@.receiver.wf(),
        ensures
            segment@ == connection_segment(
                *connection_management,
                connection_header(
                    *connection_management,
                    old(self)@,
                    old(self)@.sender.send_next_seq_no,
                ),
                probe@,
            ),
            final(self)@ == (DeliveryView {
                sender: old(self)@.sender.sent(probe@, now),
                ..old(self)@
            }),
    {
        let header: TcpHeader = self.tcp_header(
            connection_management,
            Some(self.sender.send_next_seq_no),
        );
        let copy: Vec<u8> = copy_bytes(&probe);
        let segment: OutgoingSegment = self.emit(connection_management, header, Some(probe));
        self.sender.note_sent(copy, now);
        segment
    }
}

} // verus!

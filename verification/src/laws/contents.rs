//! Laws of views: what the contracts see of a value is all that the value holds.
use crate::active_open::{ActiveOpenSocket, ConnectAction, Handshake};
use crate::congestion_control::CongestionControl;
use crate::delivery_state::DeliveryState;
use crate::fail::{Errnos, FailKind};
use crate::header::{OutgoingSegment, TcpHeader};
use crate::receiver::Receiver;
use crate::sender::Sender;
use vstd::prelude::*;

verus! {

/// The view of a header shows each of its fields.
pub proof fn header_shows_all(header: TcpHeader)
    ensures
        header@.src_port == header.src_port,
        header@.dst_port == header.dst_port,
        header@.seq_num == header.seq_num,
        header@.ack_num == header.ack_num,
        header@.ns == header.ns,
        header@.cwr == header.cwr,
        header@.ece == header.ece,
        header@.urg == header.urg,
        header@.ack == header.ack,
        header@.psh == header.psh,
        header@.rst == header.rst,
        header@.syn == header.syn,
        header@.fin == header.fin,
        header@.window_size == header.window_size,
        header@.urgent_pointer == header.urgent_pointer,
        header@.options == header.options@,
{
}

/// The view of an outgoing segment shows each of its fields.
pub proof fn segment_shows_all(segment: OutgoingSegment)
    ensures
        segment@.source == segment.source,
        segment@.destination == segment.destination,
        segment@.checksum_offload == segment.checksum_offload,
        segment@.header == segment.header@,
        segment@.payload == segment.payload@,
{
}

/// The view of a sender shows each of its fields, and each queued segment and buffer in order.
pub proof fn sender_shows_all(sender: Sender)
    ensures
        sender@.send_unacked == sender.send_unacked,
        sender@.send_next_seq_no == sender.send_next_seq_no,
        sender@.sender_fin_seq_no == sender.sender_fin_seq_no,
        sender@.retransmit_deadline == sender.retransmit_deadline_time_secs,
        sender@.unacked.len() == sender.unacked_queue@.len(),
        forall|i: int|
            #![trigger sender@.unacked[i]]
            0 <= i < sender.unacked_queue@.len() ==> {
                let segment = sender.unacked_queue@[i];
                &&& sender@.unacked[i].initial_tx == segment.initial_tx
                &&& sender@.unacked[i].bytes is Some <==> segment.bytes is Some
                &&& segment.bytes is Some ==> sender@.unacked[i].bytes->0 == segment.bytes->0@
            },
        sender@.unsent.len() == sender.unsent_queue@.len(),
        forall|i: int|
            #![trigger sender@.unsent[i]]
            0 <= i < sender.unsent_queue@.len() ==> sender@.unsent[i] == sender.unsent_queue@[i]@,
{
}

/// The view of a receiver shows each of its fields, and all data in order.
pub proof fn receiver_shows_all(receiver: Receiver)
    ensures
        receiver@.reader_next_seq_no == receiver.reader_next_seq_no,
        receiver@.receive_next_seq_no == receiver.receive_next_seq_no,
        receiver@.ack_delay_timeout == receiver.ack_delay_timeout,
        receiver@.ack_deadline == receiver.ack_deadline_time_secs,
        receiver@.buffer_size_bytes == receiver.buffer_size_bytes,
        receiver@.window_scale_shift_bits == receiver.window_scale_shift_bits,
        receiver@.received.len() == receiver.pop_queue@.len(),
        forall|i: int|
            #![trigger receiver@.received[i]]
            0 <= i < receiver.pop_queue@.len() ==> receiver@.received[i] == receiver.pop_queue@[i]@,
        receiver@.out_of_order.len() == receiver.out_of_order_frames@.len(),
        forall|i: int|
            #![trigger receiver@.out_of_order[i]]
            0 <= i < receiver.out_of_order_frames@.len() ==> {
                let frame = receiver.out_of_order_frames@[i];
                &&& receiver@.out_of_order[i].start == frame.start
                &&& receiver@.out_of_order[i].end == frame.end
                &&& receiver@.out_of_order[i].data == frame.data@
            },
{
}

/// The view of ordered delivery shows both halves.
pub proof fn delivery_shows_all(delivery: DeliveryState)
    ensures
        delivery@.sender == delivery.sender@,
        delivery@.receiver == delivery.receiver@,
{
}

/// The view of a connecting socket shows each of its fields, and all segments in the order of
/// their arrival.
pub proof fn socket_shows_all(socket: ActiveOpenSocket)
    ensures
        socket@.local_isn == socket.local_isn,
        socket@.local == socket.local,
        socket@.remote == socket.remote,
        socket@.tcp_config == socket.tcp_config,
        socket@.socket_options == socket.socket_options,
        socket@.state == socket.state,
        socket@.received.len() == socket.recv_queue@.len(),
        forall|i: int|
            #![trigger socket@.received[i]]
            0 <= i < socket.recv_queue@.len() ==> {
                let segment = socket.recv_queue@[i];
                &&& socket@.received[i].0 == segment.0
                &&& socket@.received[i].1 == segment.1@
                &&& socket@.received[i].2 == segment.2@
            },
{
}

/// The view of a handshake shows each of its fields, and the connection but for congestion
/// control.
pub proof fn handshake_shows_all<C: CongestionControl>(handshake: Handshake<C>)
    ensures
        handshake@.local_isn == handshake.local_isn,
        handshake@.local == handshake.local,
        handshake@.remote == handshake.remote,
        handshake@.tcp_config == handshake.tcp_config,
        handshake@.attempts_left == handshake.attempts_left,
        handshake@.setup.connection_management == handshake.control_block.connection_management,
        handshake@.setup.delivery == handshake.control_block.delivery@,
        handshake@.setup.flow_control == handshake.control_block.flow_control,
{
}

/// The view of an action shows what it is and everything in it.
pub proof fn action_shows_all(action: ConnectAction)
    ensures
        action is SendSyn ==> action@ is SendSyn && action@->SendSyn_segment
            == action->SendSyn_segment@,
        action is AwaitReply ==> action@ is AwaitReply && action@->timeout == action->timeout,
        action is SendAck ==> action@ is SendAck && action@->SendAck_segment
            == action->SendAck_segment@,
        action is GiveUp ==> action@ is GiveUp && action@->kind == action->fail.kind
            && action@->cause == action->fail.cause@,
{
}

/// Each kind of failure is reported by its own number.
pub proof fn failures_have_their_numbers(errnos: Errnos)
    ensures
        errnos.number(FailKind::ConnectionAborted) == errnos.connection_aborted,
        errnos.number(FailKind::ConnectionRefused) == errnos.connection_refused,
        errnos.number(FailKind::ConnectionReset) == errnos.connection_reset,
        errnos.number(FailKind::BadMessage) == errnos.bad_message,
        errnos.number(FailKind::TimedOut) == errnos.timed_out,
{
}

} // verus!

//! Laws of what outgoing segments carry.
use crate::active_open::HandshakeView;
use crate::congestion_control::CongestionControl;
use crate::connection_management_state::ConnectionManagementState;
use crate::ctrlblk::ControlBlock;
use crate::delivery_state::{connection_header, connection_segment, DeliveryView};
use crate::header::{HeaderView, SegmentView, TcpOptions2};
use crate::seq_number::SeqNumber;
use crate::time::Instant;
use vstd::prelude::*;

verus! {

/// Whether a header makes no use of urgent data, of congestion notification and of options.
pub open spec fn is_plain(header: HeaderView) -> bool {
    &&& !header.ns && !header.cwr && !header.ece
    &&& !header.urg && header.urgent_pointer == 0
    &&& header.options.len() == 0
}

/// Whether a segment goes from the local to the remote end of a connection, acknowledges all that
/// has been received in order, advertises the window, and neither opens nor resets anything.
pub open spec fn belongs_to_connection(
    segment: SegmentView,
    cm: ConnectionManagementState,
    delivery: DeliveryView,
) -> bool {
    &&& segment.source == cm.local.ip
    &&& segment.destination == cm.remote.ip
    &&& segment.checksum_offload == cm.tcp_config.tx_checksum_offload
    &&& segment.header.src_port == cm.local.port
    &&& segment.header.dst_port == cm.remote.port
    &&& segment.header.ack
    &&& segment.header.ack_num == delivery.receiver.receive_next_seq_no
    &&& segment.header.window_size == delivery.receiver.advertised_window() as u16
    &&& !segment.header.syn
    &&& !segment.header.rst
    &&& is_plain(segment.header)
}

/// The ACK that a connection sends carries no data, starts at SND.NXT and does nothing but
/// acknowledge.
pub proof fn ack_only_acknowledges(
    cm: ConnectionManagementState,
    delivery: DeliveryView,
    seq_num: SeqNumber,
    payload: Seq<u8>,
)
    ensures
        ({
            let segment = connection_segment(
                cm,
                connection_header(cm, delivery, seq_num),
                payload,
            );
            &&& belongs_to_connection(segment, cm, delivery)
            &&& segment.header.seq_num == seq_num
            &&& !segment.header.psh
            &&& !segment.header.fin
            &&& segment.payload == payload
        }),
{
}

/// A segment leaves as it was made up, between the ends of its connection.
pub proof fn emitting_adds_addresses_only(
    cm: ConnectionManagementState,
    header: HeaderView,
    payload: Seq<u8>,
)
    ensures
        ({
            let segment = connection_segment(cm, header, payload);
            &&& segment.header == header
            &&& segment.payload == payload
            &&& segment.source == cm.local.ip
            &&& segment.destination == cm.remote.ip
            &&& segment.checksum_offload == cm.tcp_config.tx_checksum_offload
        }),
{
}

/// Data and window probes go out as segments of the connection, with no FIN.
pub proof fn data_belongs_to_connection<C: CongestionControl>(
    before: ControlBlock<C>,
    after: ControlBlock<C>,
    algorithm: C,
    buffer: Seq<u8>,
    now: Instant,
    left: Seq<u8>,
    segment: SegmentView,
)
    requires
        after.sent_from(before, algorithm, buffer, now, left, Some(segment)) || after.probed_from(
            before,
            buffer,
            now,
            left,
            segment,
        ),
    ensures
        belongs_to_connection(segment, before.connection_management, before.delivery@),
        !segment.header.fin,
        after.probed_from(before, buffer, now, left, segment) ==> !segment.header.psh,
{
}

/// What is sent again goes out as a segment of the connection, at SND.UNA, with the bytes of the
/// oldest unacknowledged segment, or as a FIN without any.
pub proof fn retransmission_belongs_to_connection(
    cm: ConnectionManagementState,
    delivery: DeliveryView,
)
    ensures
        delivery.retransmission(cm) is Some <==> delivery.sender.unacked.len() > 0,
        delivery.retransmission(cm) is Some ==> {
            let segment = delivery.retransmission(cm)->0;
            let first = delivery.sender.unacked[0];
            &&& belongs_to_connection(segment, cm, delivery)
            &&& segment.header.seq_num == delivery.sender.send_unacked
            &&& segment.header.fin <==> first.bytes is None
            &&& segment.header.psh <==> first.bytes is Some
            &&& segment.payload == match first.bytes {
                Some(bytes) => bytes,
                None => Seq::empty(),
            }
        },
{
}

/// Our SYN carries our initial sequence number, our window, and two options: the low 16 bits of
/// our segment size, and our window scale. It acknowledges nothing.
pub proof fn syn_advertises_our_settings(handshake: HandshakeView)
    ensures
        ({
            let syn = handshake.syn();
            let config = handshake.tcp_config;
            &&& syn.source == handshake.local.ip
            &&& syn.destination == handshake.remote.ip
            &&& syn.checksum_offload == config.rx_checksum_offload
            &&& syn.payload.len() == 0
            &&& syn.header.src_port == handshake.local.port
            &&& syn.header.dst_port == handshake.remote.port
            &&& syn.header.syn
            &&& !syn.header.ack && !syn.header.rst && !syn.header.fin && !syn.header.psh
            &&& syn.header.seq_num == handshake.local_isn
            &&& syn.header.ack_num.value == 0
            &&& syn.header.window_size == config.receive_window_size
            &&& syn.header.options.len() == 2
            &&& syn.header.options[0] is MaximumSegmentSize
            &&& (config.advertised_mss - syn.header.options[0]->MaximumSegmentSize_0) % 0x1_0000
                == 0
            &&& config.advertised_mss <= 0xffff ==> syn.header.options[0]
                == TcpOptions2::MaximumSegmentSize(config.advertised_mss as u16)
            &&& syn.header.options[1] == TcpOptions2::WindowScale(config.window_scale)
            &&& is_plain(HeaderView { options: Seq::empty(), ..syn.header })
        }),
{
}

/// The last segment of the handshake acknowledges the SYN of the peer, and nothing else. It takes
/// up the sequence number behind our own SYN.
pub proof fn final_ack_acknowledges_peer(handshake: HandshakeView, synack: HeaderView)
    ensures
        ({
            let ack = handshake.final_ack(synack);
            &&& ack.source == handshake.local.ip
            &&& ack.destination == handshake.remote.ip
            &&& ack.checksum_offload == handshake.tcp_config.rx_checksum_offload
            &&& ack.payload.len() == 0
            &&& ack.header.src_port == handshake.local.port
            &&& ack.header.dst_port == handshake.remote.port
            &&& ack.header.ack
            &&& !ack.header.syn && !ack.header.rst && !ack.header.fin && !ack.header.psh
            &&& ack.header.ack_num.steps_from(synack.seq_num) == 1
            &&& ack.header.seq_num.steps_from(handshake.local_isn) == 1
            &&& ack.header.window_size == handshake.tcp_config.receive_window_size
            &&& is_plain(ack.header)
        }),
{
}

/// A new header says nothing beyond its ports.
pub proof fn blank_header_says_nothing(src_port: u16, dst_port: u16)
    ensures
        ({
            let header = HeaderView::blank(src_port, dst_port);
            &&& header.src_port == src_port
            &&& header.dst_port == dst_port
            &&& header.seq_num.value == 0
            &&& header.ack_num.value == 0
            &&& header.window_size == 0
            &&& !header.syn && !header.ack && !header.rst && !header.fin && !header.psh
            &&& is_plain(header)
        }),
{
}

} // verus!

//! What connecting a socket does.
use crate::active_open::{
    ActiveOpenSocket, ConnectAction, ConnectEvent, Handshake, OpenState,
};
use crate::addr::{Ipv4Addr, SocketAddrV4};
use crate::config::{TcpConfig, TcpSocketOptions, FALLBACK_MSS};
use crate::congestion_control::{CongestionControl, Options};
use crate::connection_management_state::ConnectionManagementState;
use crate::ctrlblk::{ControlBlock, State};
use crate::delivery_state::DeliveryState;
use crate::fail::{Fail, FailKind};
use crate::flow_control_state::FlowControlState;
use crate::header::TcpHeader;
use crate::laws::handshake::{
    built_connection_holds_what_is_known, everything_else_retries, handshake_starts_unanswered,
    is_new_sender, refusal_ends_handshake, started, synack_establishes_connection,
    syn_settles_where_stream_starts,
};
use crate::laws::segments::{final_ack_acknowledges_peer, syn_advertises_our_settings};
use crate::laws::sequence::advancing_undoes_difference;
use crate::laws::window::handshake_settles_window;
use crate::seq_number::SeqNumber;
use crate::tcp_events::{
    build_control_block_for_active_open, build_control_block_for_passive_open,
    dispatch_ack_in_synrcvd, dispatch_syn_in_listen, dispatch_synack_in_synsent, ActiveOpenConfig,
    PassiveOpenConfig,
};
use vstd::arithmetic::power2::pow2;
use vstd::prelude::*;

verus! {

/// Whether a segment acknowledges the SYN of a handshake.
pub open spec fn acknowledges_syn<C: CongestionControl>(
    handshake: Handshake<C>,
    header: TcpHeader,
) -> bool {
    header.ack && header.ack_num.steps_from(handshake.local_isn) == 1
}

/// A peer that refuses the connection ends the handshake at once: no further SYN, whatever else
/// its segment says and however many attempts are left.
pub proof fn refused_connection_fails<C: CongestionControl>(
    handshake: &mut Handshake<C>,
    event: ConnectEvent,
    action: ConnectAction,
)
    requires
        call_ensures(Handshake::<C>::step, (handshake, event), action),
        event is Received,
        acknowledges_syn(*old(handshake), event->header),
        event->header.rst,
    ensures
        action is GiveUp,
        action->fail.kind == FailKind::ConnectionRefused,
        action->fail.cause@ == "connection refused"@,
        final(handshake).attempts_left == old(handshake).attempts_left,
        final(handshake)@.setup == old(handshake)@.setup,
{
    refusal_ends_handshake(old(handshake)@, event);
}

/// Whatever else does not answer our SYN leads to another SYN while attempts are left, and to
/// failure when none is. The SYN carries our initial sequence number and our settings.
pub proof fn unanswered_syn_is_repeated<C: CongestionControl>(
    handshake: &mut Handshake<C>,
    event: ConnectEvent,
    action: ConnectAction,
)
    requires
        call_ensures(Handshake::<C>::step, (handshake, event), action),
        match event {
            ConnectEvent::Started => true,
            ConnectEvent::SynTransmitted { sent } => !sent,
            ConnectEvent::StateChanged { state } => state != Some(OpenState::Closed),
            ConnectEvent::Received { header } => !acknowledges_syn(*old(handshake), header) || (
            !header.rst && !header.syn),
            ConnectEvent::TimedOut => true,
        },
    ensures
        final(handshake)@.setup == old(handshake)@.setup,
        old(handshake).attempts_left > 0 ==> {
            &&& final(handshake).attempts_left == old(handshake).attempts_left - 1
            &&& action is SendSyn
            &&& action->SendSyn_segment.header.syn
            &&& !action->SendSyn_segment.header.ack
            &&& action->SendSyn_segment.header.seq_num == old(handshake).local_isn
            &&& action->SendSyn_segment.header.window_size == old(handshake).tcp_config.receive_window_size
            &&& action->SendSyn_segment.destination == old(handshake).remote.ip
        },
        old(handshake).attempts_left == 0 ==> {
            &&& action is GiveUp
            &&& action->fail.kind == FailKind::ConnectionRefused
            &&& action->fail.cause@ == "connection handshake timed out"@
        },
{
    everything_else_retries(old(handshake)@, event);
    syn_advertises_our_settings(old(handshake)@);
    if action is SendSyn {
        assert(action->SendSyn_segment@ == old(handshake)@.syn());
        assert(action->SendSyn_segment@.header == action->SendSyn_segment.header@);
    }
}

/// A SYN+ACK establishes the connection, and is answered with an ACK of it.
pub proof fn synack_is_acknowledged<C: CongestionControl>(
    handshake: &mut Handshake<C>,
    event: ConnectEvent,
    action: ConnectAction,
)
    requires
        call_ensures(Handshake::<C>::step, (handshake, event), action),
        event is Received,
        acknowledges_syn(*old(handshake), event->header),
        event->header.syn,
        !event->header.rst,
    ensures
        action is SendAck,
        action->SendAck_segment.header.ack,
        !action->SendAck_segment.header.syn,
        action->SendAck_segment.header.ack_num.steps_from(event->header.seq_num) == 1,
        action->SendAck_segment.header.seq_num.steps_from(old(handshake).local_isn) == 1,
        action->SendAck_segment.destination == old(handshake).remote.ip,
        final(handshake).attempts_left == old(handshake).attempts_left,
        final(handshake).control_block.connection_management.state == State::Established,
        final(handshake).control_block.delivery@.receiver.receive_next_seq_no.steps_from(
            event->header.seq_num,
        ) == 1,
        final(handshake).control_block.delivery@.sender == old(handshake).control_block.delivery@.sender,
        final(handshake).control_block.flow_control.send_window == event->header.window_size * pow2(
            final(handshake).control_block.flow_control.send_window_scale_shift_bits as nat,
        ),
        final(handshake).control_block.congestion_control == old(handshake).control_block.congestion_control,
{
    synack_establishes_connection(old(handshake)@, event);
    final_ack_acknowledges_peer(old(handshake)@, event->header@);
    assert(action->SendAck_segment@ == old(handshake)@.final_ack(event->header@));
    assert(action->SendAck_segment@.header == action->SendAck_segment.header@);
}

/// After a SYN the handshake waits as long as it is configured to, and a close ends it.
pub proof fn waits_and_closes<C: CongestionControl>(
    sent: &mut Handshake<C>,
    wait: ConnectAction,
    closed: &mut Handshake<C>,
    end: ConnectAction,
)
    requires
        call_ensures(
            Handshake::<C>::step,
            (sent, ConnectEvent::SynTransmitted { sent: true }),
            wait,
        ),
        call_ensures(
            Handshake::<C>::step,
            (closed, ConnectEvent::StateChanged { state: Some(OpenState::Closed) }),
            end,
        ),
    ensures
        wait is AwaitReply,
        wait->timeout == old(sent).tcp_config.handshake_timeout,
        final(sent)@ == old(sent)@,
        end is GiveUp,
        end->fail.kind == FailKind::ConnectionAborted,
        end->fail.cause@ == "Closing socket while connecting"@,
        final(closed)@ == old(closed)@,
{
}

/// A change of a socket's state during a wait comes before any segment, and segments come one by
/// one, oldest first.
pub proof fn close_comes_before_segments(
    socket: &mut ActiveOpenSocket,
    watched: OpenState,
    event: Option<ConnectEvent>,
)
    requires
        call_ensures(ActiveOpenSocket::next_reply, (socket, watched), event),
    ensures
        old(socket).state != watched ==> {
            &&& event == Some(ConnectEvent::StateChanged { state: Some(old(socket).state) })
            &&& final(socket)@.received == old(socket)@.received
        },
        old(socket).state == watched && old(socket)@.received.len() > 0 ==> {
            &&& event is Some
            &&& event->0 is Received
            &&& event->0->header@ == old(socket)@.received[0].1
            &&& final(socket)@.received == old(socket)@.received.skip(1)
        },
        old(socket).state == watched && old(socket)@.received.len() == 0 ==> event is None,
        final(socket).state == old(socket).state,
{
    assert(old(socket)@.state == old(socket).state);
    assert(final(socket)@.state == final(socket).state);
    if old(socket)@.received.len() > 0 {
        assert(old(socket)@.received.drop_first() =~= old(socket)@.received.skip(1));
    }
}

/// A new socket is connecting and has received nothing.
pub proof fn new_sockets_connect(
    local_isn: SeqNumber,
    local: SocketAddrV4,
    remote: SocketAddrV4,
    config: TcpConfig,
    options: TcpSocketOptions,
    result: Result<ActiveOpenSocket, Fail>,
)
    requires
        call_ensures(ActiveOpenSocket::new, (local_isn, local, remote, config, options), result),
    ensures
        result is Ok,
        result->Ok_0.local_isn == local_isn,
        result->Ok_0.local == local,
        result->Ok_0.remote == remote,
        result->Ok_0.tcp_config == config,
        result->Ok_0.socket_options == options,
        result->Ok_0.state == OpenState::Connecting,
        result->Ok_0@.received.len() == 0,
{
    assert(result->Ok_0@.local_isn == result->Ok_0.local_isn);
}

/// Closing a socket closes it and nothing else, a segment joins those that have arrived, and the
/// ends of a socket are those that it was made with.
pub proof fn sockets_close_and_receive(
    closed: &mut ActiveOpenSocket,
    socket: &mut ActiveOpenSocket,
    from: Ipv4Addr,
    header: TcpHeader,
    data: Vec<u8>,
    asked: ActiveOpenSocket,
    ends: (SocketAddrV4, SocketAddrV4),
)
    requires
        call_ensures(ActiveOpenSocket::close, (closed,), ()),
        call_ensures(ActiveOpenSocket::receive, (socket, from, header, data), ()),
        call_ensures(ActiveOpenSocket::endpoints, (&asked,), ends),
    ensures
        final(closed).state == OpenState::Closed,
        final(closed)@.received == old(closed)@.received,
        final(closed).local_isn == old(closed).local_isn,
        final(socket).state == old(socket).state,
        final(socket)@.received.len() == old(socket)@.received.len() + 1,
        final(socket)@.received.drop_last() == old(socket)@.received,
        final(socket)@.received.last() == (from, header@, data@),
        ends == (asked.local, asked.remote),
{
    assert(final(closed)@.state == final(closed).state);
    assert(final(closed)@.local_isn == final(closed).local_isn);
    assert(old(closed)@.local_isn == old(closed).local_isn);
    assert(final(socket)@.state == final(socket).state);
    assert(old(socket)@.state == old(socket).state);
    assert(final(socket)@.received.drop_last() =~= old(socket)@.received);
}

/// Connecting starts a handshake with all attempts and nothing known of the peer.
pub proof fn connecting_starts_handshake<
    C: CongestionControl,
    F: FnOnce(usize, SeqNumber, Option<Options>) -> C,
>(socket: ActiveOpenSocket, cc_constructor: F, handshake: Handshake<C>)
    requires
        socket.tcp_config.window_scale <= 14,
        call_ensures(ActiveOpenSocket::connect::<C, F>, (&socket, cc_constructor), handshake),
    ensures
        handshake.attempts_left == socket.tcp_config.handshake_retries,
        handshake.local_isn == socket.local_isn,
        handshake.remote == socket.remote,
        handshake.control_block.connection_management.state == State::SynSent,
        is_new_sender(handshake.control_block.delivery@.sender, socket.local_isn),
        handshake.control_block.delivery@.receiver.buffer_size_bytes
            == socket.tcp_config.receive_window_size * pow2(socket.tcp_config.window_scale as nat),
        handshake.control_block.flow_control.send_window == 0,
        cc_constructor.ensures(
            (FALLBACK_MSS, handshake.control_block.delivery@.sender.send_next_seq_no, None),
            handshake.control_block.congestion_control.cc_algorithm,
        ),
{
    handshake_starts_unanswered(socket@);
    assert(handshake@ == started(socket@));
    advancing_undoes_difference(
        socket.local_isn,
        handshake.control_block.delivery@.sender.send_next_seq_no,
        1,
    );
}

/// A SYN that arrives while listening settles the peer: its address, where its stream starts, its
/// window, scale and segment size.
pub proof fn syn_settles_peer(
    cm: &mut ConnectionManagementState,
    delivery: &mut DeliveryState,
    flow_control: &mut FlowControlState,
    header: TcpHeader,
    remote: SocketAddrV4,
    local_isn: SeqNumber,
    mss: usize,
    scale: u8,
)
    requires
        scale <= 14,
        call_ensures(
            dispatch_syn_in_listen,
            (cm, delivery, flow_control, &header, remote, local_isn, mss, scale),
            (),
        ),
    ensures
        final(cm).state == State::SynReceived,
        final(cm).remote == remote,
        final(cm).local == old(cm).local,
        final(delivery)@.receiver.receive_next_seq_no.steps_from(header.seq_num) == 1,
        final(delivery)@.receiver.reader_next_seq_no.steps_from(header.seq_num) == 1,
        final(delivery)@.sender == old(delivery)@.sender,
        final(flow_control).send_window == header.window_size * pow2(scale as nat),
        final(flow_control).send_window_scale_shift_bits == scale,
        final(flow_control).mss == mss,
        final(flow_control).send_window_last_update_seq.steps_from(header.seq_num) == 1,
        final(flow_control).send_window_last_update_ack.steps_from(local_isn) == 1,
{
    syn_settles_where_stream_starts(old(delivery)@, header.seq_num);
    handshake_settles_window(
        header.window_size,
        scale,
        mss,
        header.seq_num.advanced(1),
        local_isn.advanced(1),
    );
}

/// A SYN+ACK is taken exactly if it acknowledges our SYN, and then settles the peer. Otherwise
/// nothing changes.
pub proof fn synack_settles_peer(
    cm: &mut ConnectionManagementState,
    delivery: &mut DeliveryState,
    flow_control: &mut FlowControlState,
    header: TcpHeader,
    local_isn: SeqNumber,
    scale: u8,
    mss: usize,
    result: Result<(), &'static str>,
)
    requires
        scale <= 14,
        call_ensures(
            dispatch_synack_in_synsent,
            (cm, delivery, flow_control, &header, local_isn, scale, mss),
            result,
        ),
    ensures
        result is Ok <==> header.ack_num.steps_from(local_isn) == 1,
        result is Ok ==> {
            &&& final(cm).state == State::Established
            &&& final(cm).remote == old(cm).remote
            &&& final(delivery)@.receiver.receive_next_seq_no.steps_from(header.seq_num) == 1
            &&& final(delivery)@.sender == old(delivery)@.sender
            &&& final(flow_control).send_window == header.window_size * pow2(scale as nat)
            &&& final(flow_control).send_window_scale_shift_bits == scale
            &&& final(flow_control).mss == mss
            &&& final(flow_control).send_window_last_update_ack == header.ack_num
        },
        result is Err ==> {
            &&& *final(cm) == *old(cm)
            &&& *final(delivery) == *old(delivery)
            &&& *final(flow_control) == *old(flow_control)
        },
{
    advancing_undoes_difference(local_isn, header.ack_num, 1);
    syn_settles_where_stream_starts(old(delivery)@, header.seq_num);
    handshake_settles_window(
        header.window_size,
        scale,
        mss,
        header.seq_num.advanced(1),
        header.ack_num,
    );
}

/// The final ACK of a handshake establishes the connection and changes nothing else.
pub proof fn final_ack_establishes(
    cm: &mut ConnectionManagementState,
    delivery: &mut DeliveryState,
    flow_control: &mut FlowControlState,
)
    requires
        call_ensures(dispatch_ack_in_synrcvd, (cm, delivery, flow_control), ()),
    ensures
        final(cm).state == State::Established,
        final(cm).local == old(cm).local,
        final(cm).remote == old(cm).remote,
        *final(delivery) == *old(delivery),
        *final(flow_control) == *old(flow_control),
{
}

/// A connection that is built holds what is known of it, and its algorithm is made for its segment
/// size and its first sequence number.
pub proof fn built_connections_hold_what_is_known<
    C: CongestionControl,
    F: FnOnce(usize, SeqNumber, Option<Options>) -> C,
>(
    config: PassiveOpenConfig,
    active: ActiveOpenConfig,
    cc_constructor: F,
    accepted: ControlBlock<C>,
    connected: ControlBlock<C>,
)
    requires
        call_ensures(
            build_control_block_for_passive_open::<C, F>,
            (config, cc_constructor),
            accepted,
        ),
        call_ensures(
            build_control_block_for_active_open::<C, F>,
            (active, cc_constructor),
            connected,
        ),
    ensures
        accepted.connection_management.state == State::Established,
        accepted.connection_management.local == config.local,
        accepted.connection_management.remote == config.remote,
        is_new_sender(accepted.delivery@.sender, config.local_isn),
        accepted.delivery@.receiver.receive_next_seq_no.steps_from(config.remote_isn) == 1,
        accepted.delivery@.receiver.reader_next_seq_no.steps_from(config.remote_isn) == 1,
        accepted.delivery@.receiver.buffer_size_bytes == config.local_window_size_bytes,
        accepted.flow_control.send_window == config.remote_window_size_bytes,
        accepted.flow_control.mss == config.mss,
        accepted.congestion_control.rto_calculator.timeout.nanos == 1_000_000_000,
        cc_constructor.ensures(
            (config.mss, accepted.delivery@.sender.send_next_seq_no, None),
            accepted.congestion_control.cc_algorithm,
        ),
        connected.connection_management.state == State::Established,
        connected.connection_management.local == active.local,
        connected.connection_management.remote == active.remote,
        is_new_sender(connected.delivery@.sender, active.local_isn),
        connected.delivery@.receiver.receive_next_seq_no.steps_from(active.remote_isn) == 1,
        connected.delivery@.receiver.reader_next_seq_no.steps_from(active.remote_isn) == 1,
        connected.delivery@.receiver.buffer_size_bytes == active.local_window_size_bytes,
        connected.flow_control.send_window == active.remote_window_size_bytes,
        connected.flow_control.mss == active.mss,
        connected.congestion_control.rto_calculator.timeout.nanos == 1_000_000_000,
        cc_constructor.ensures(
            (active.mss, connected.delivery@.sender.send_next_seq_no, None),
            connected.congestion_control.cc_algorithm,
        ),
{
    built_connection_holds_what_is_known(config);
    assert(crate::tcp_events::setup_of(connected) == active.established());
}

} // verus!

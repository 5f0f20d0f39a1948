use demitcp::active_open::{
    classify_answer, limit_window_scale, parse_synack_options, ActiveOpenSocket, Answer,
    ConnectAction, ConnectEvent, Handshake, OpenState,
};
use demitcp::addr::{Ipv4Addr, SocketAddrV4};
use demitcp::config::{TcpConfig, TcpSocketOptions, FALLBACK_MSS};
use demitcp::congestion_control::{CongestionControl, NoCongestionControl};
use demitcp::connection_management_state::ConnectionManagementState;
use demitcp::ctrlblk::State;
use demitcp::delivery_state::DeliveryState;
use demitcp::fail::{Fail, FailKind};
use demitcp::flow_control_state::FlowControlState;
use demitcp::header::{OutgoingSegment, TcpHeader, TcpOptions2};
use demitcp::seq_number::SeqNumber;
use demitcp::tcp_events::{
    build_control_block_for_active_open, build_control_block_for_passive_open,
    create_control_block_for_listen, dispatch_ack_in_synrcvd, dispatch_syn_in_listen,
    dispatch_synack_in_synsent, ActiveOpenConfig, PassiveOpenConfig,
};
use demitcp::time::Duration;

fn local() -> SocketAddrV4 {
    SocketAddrV4 { ip: Ipv4Addr { bits: 0x0a00_0001 }, port: 4000 }
}

fn remote() -> SocketAddrV4 {
    SocketAddrV4 { ip: Ipv4Addr { bits: 0x0a00_0002 }, port: 80 }
}

fn config(handshake_retries: usize) -> TcpConfig {
    TcpConfig {
        advertised_mss: 0x1_0000 + 1460,
        handshake_retries,
        handshake_timeout: Duration { nanos: 3_000_000_000 },
        receive_window_size: 0xffff,
        window_scale: 3,
        ack_delay_timeout: Duration { nanos: 5 },
        rx_checksum_offload: true,
        tx_checksum_offload: false,
    }
}

fn socket_options() -> TcpSocketOptions {
    TcpSocketOptions { keep_alive: true, linger: None, no_delay: false }
}

fn socket(retries: usize) -> ActiveOpenSocket {
    match ActiveOpenSocket::new(SeqNumber::new(99), local(), remote(), config(retries), socket_options()) {
        Ok(socket) => socket,
        Err(fail) => panic!("{:?}", fail),
    }
}

fn handshake(retries: usize) -> Handshake<NoCongestionControl> {
    socket(retries).connect(NoCongestionControl::new)
}

fn synack() -> TcpHeader {
    let mut header = TcpHeader::new(80, 4000);
    header.syn = true;
    header.ack = true;
    header.seq_num = SeqNumber::new(4999);
    header.ack_num = SeqNumber::new(100);
    header.window_size = 1000;
    header.push_option(TcpOptions2::MaximumSegmentSize(1200));
    header.push_option(TcpOptions2::NoOperation);
    header.push_option(TcpOptions2::WindowScale(7));
    header
}

fn syn_segment() -> OutgoingSegment {
    let mut header = TcpHeader::new(4000, 80);
    header.syn = true;
    header.seq_num = SeqNumber::new(99);
    header.window_size = 0xffff;
    header.push_option(TcpOptions2::MaximumSegmentSize(1460));
    header.push_option(TcpOptions2::WindowScale(3));
    OutgoingSegment {
        source: local().ip,
        destination: remote().ip,
        checksum_offload: true,
        header,
        payload: Vec::new(),
    }
}

fn give_up(kind: FailKind, cause: &'static str) -> ConnectAction {
    ConnectAction::GiveUp { fail: Fail { kind, cause } }
}

#[test]
fn new_socket_is_connecting() {
    let mut socket = socket(5);
    assert_eq!(socket.state, OpenState::Connecting);
    assert_eq!(socket.endpoints(), (local(), remote()));
    socket.close();
    assert_eq!(socket.state, OpenState::Closed);
}

#[test]
fn received_segments_wait_in_order() {
    let mut socket = socket(5);
    socket.receive(remote().ip, synack(), vec![1]);
    socket.receive(remote().ip, TcpHeader::new(1, 2), Vec::new());
    assert_eq!(socket.pop_received(), Some((remote().ip, synack(), vec![1])));
    assert_eq!(socket.pop_received(), Some((remote().ip, TcpHeader::new(1, 2), Vec::new())));
    assert_eq!(socket.pop_received(), None);
}

#[test]
fn connect_starts_in_syn_sent() {
    let handshake = handshake(5);
    let cb = &handshake.control_block;
    assert_eq!(handshake.attempts_left, 5);
    assert_eq!(cb.connection_management.state, State::SynSent);
    assert_eq!(cb.delivery.sender.send_next_seq_no, SeqNumber::new(100));
    assert_eq!(cb.delivery.receiver.buffer_size_bytes, 0xffff << 3);
    assert_eq!(cb.flow_control.mss, FALLBACK_MSS);
}

#[test]
fn handshake_completes() {
    let mut handshake = handshake(5);
    assert_eq!(handshake.step(ConnectEvent::Started), ConnectAction::SendSyn { segment: syn_segment() });
    assert_eq!(handshake.attempts_left, 4);
    assert_eq!(
        handshake.step(ConnectEvent::SynTransmitted { sent: true }),
        ConnectAction::AwaitReply { timeout: Duration { nanos: 3_000_000_000 } }
    );
    let mut ack = TcpHeader::new(4000, 80);
    ack.ack = true;
    ack.ack_num = SeqNumber::new(5000);
    ack.seq_num = SeqNumber::new(100);
    ack.window_size = 0xffff;
    assert_eq!(
        handshake.step(ConnectEvent::Received { header: synack() }),
        ConnectAction::SendAck {
            segment: OutgoingSegment {
                source: local().ip,
                destination: remote().ip,
                checksum_offload: true,
                header: ack,
                payload: Vec::new(),
            }
        }
    );
    let cb = &handshake.control_block;
    assert_eq!(cb.connection_management.state, State::Established);
    assert_eq!(cb.delivery.receiver.receive_next_seq_no, SeqNumber::new(5000));
    assert_eq!(cb.flow_control.send_window, 1000 << 7);
    assert_eq!(cb.flow_control.mss, 1200);
}

#[test]
fn handshake_ends_like_the_builder() {
    let mut handshake = handshake(5);
    handshake.step(ConnectEvent::Started);
    handshake.step(ConnectEvent::Received { header: synack() });
    let built = build_control_block_for_active_open(
        ActiveOpenConfig {
            local: local(),
            remote: remote(),
            local_isn: SeqNumber::new(99),
            remote_isn: SeqNumber::new(4999),
            tcp_config: config(5),
            socket_options: socket_options(),
            mss: 1200,
            local_window_scale_bits: 3,
            remote_window_scale_bits: 7,
            local_window_size_bytes: 0xffff << 3,
            remote_window_size_bytes: 1000 << 7,
            ack_delay_timeout: Duration { nanos: 5 },
        },
        NoCongestionControl::new,
    );
    let cb = handshake.control_block;
    assert_eq!(cb.connection_management, built.connection_management);
    assert_eq!(cb.delivery, built.delivery);
    assert_eq!(cb.flow_control, built.flow_control);
    assert_eq!(cb.congestion_control.rto_calculator, built.congestion_control.rto_calculator);
}

#[test]
fn handshake_gives_up_after_all_attempts() {
    let mut handshake = handshake(2);
    assert!(matches!(handshake.step(ConnectEvent::Started), ConnectAction::SendSyn { .. }));
    assert!(matches!(handshake.step(ConnectEvent::TimedOut), ConnectAction::SendSyn { .. }));
    assert_eq!(
        handshake.step(ConnectEvent::TimedOut),
        give_up(FailKind::ConnectionRefused, "connection handshake timed out")
    );
    assert_eq!(
        self::handshake(0).step(ConnectEvent::Started),
        give_up(FailKind::ConnectionRefused, "connection handshake timed out")
    );
}

#[test]
fn failed_transmission_uses_up_an_attempt() {
    let mut handshake = handshake(2);
    handshake.step(ConnectEvent::Started);
    assert_eq!(
        handshake.step(ConnectEvent::SynTransmitted { sent: false }),
        ConnectAction::SendSyn { segment: syn_segment() }
    );
    assert_eq!(handshake.attempts_left, 0);
}

#[test]
fn closing_aborts_the_handshake() {
    let mut handshake = handshake(5);
    handshake.step(ConnectEvent::Started);
    assert_eq!(
        handshake.step(ConnectEvent::StateChanged { state: Some(OpenState::Closed) }),
        give_up(FailKind::ConnectionAborted, "Closing socket while connecting")
    );
}

#[test]
fn closing_wins_over_a_segment() {
    let mut socket = socket(5);
    let mut handshake = socket.connect(NoCongestionControl::new);
    handshake.step(ConnectEvent::Started);
    socket.receive(remote().ip, synack(), Vec::new());
    socket.close();
    assert_eq!(
        handshake.step(socket.next_reply(OpenState::Connecting).unwrap()),
        give_up(FailKind::ConnectionAborted, "Closing socket while connecting")
    );
    assert_eq!(handshake.attempts_left, 4);
    assert_eq!(handshake.control_block.connection_management.state, State::SynSent);
    // The segment is still there.
    assert_eq!(socket.pop_received(), Some((remote().ip, synack(), Vec::new())));
}

#[test]
fn close_before_the_wait_is_no_change() {
    let mut socket = socket(5);
    let mut handshake = socket.connect(NoCongestionControl::new);
    handshake.step(ConnectEvent::Started);
    socket.close();
    let watched = socket.state;
    assert!(socket.next_reply(watched).is_none());
    socket.receive(remote().ip, synack(), Vec::new());
    assert!(matches!(
        handshake.step(socket.next_reply(watched).unwrap()),
        ConnectAction::SendAck { .. }
    ));
}

#[test]
fn replies_come_in_the_order_of_arrival() {
    let mut socket = socket(5);
    let mut handshake = socket.connect(NoCongestionControl::new);
    handshake.step(ConnectEvent::Started);
    assert!(socket.next_reply(OpenState::Connecting).is_none());
    let mut not_syn = synack();
    not_syn.syn = false;
    socket.receive(remote().ip, not_syn, Vec::new());
    socket.receive(remote().ip, synack(), Vec::new());
    assert!(matches!(
        handshake.step(socket.next_reply(OpenState::Connecting).unwrap()),
        ConnectAction::SendSyn { .. }
    ));
    assert!(matches!(
        handshake.step(socket.next_reply(OpenState::Connecting).unwrap()),
        ConnectAction::SendAck { .. }
    ));
    assert!(socket.next_reply(OpenState::Connecting).is_none());
}

#[test]
fn other_state_changes_retry() {
    let mut handshake = handshake(5);
    for state in [Some(OpenState::Connecting), None] {
        assert!(matches!(
            handshake.step(ConnectEvent::StateChanged { state }),
            ConnectAction::SendSyn { .. }
        ));
    }
    assert_eq!(handshake.attempts_left, 3);
}

#[test]
fn reset_refuses_the_connection() {
    let mut handshake = handshake(5);
    let mut header = synack();
    header.rst = true;
    assert_eq!(
        handshake.step(ConnectEvent::Received { header }),
        give_up(FailKind::ConnectionRefused, "connection refused")
    );
}

#[test]
fn unrelated_segments_retry() {
    let mut handshake = handshake(5);
    let mut not_ack = synack();
    not_ack.ack = false;
    not_ack.rst = true;
    let mut wrong_ack = synack();
    wrong_ack.ack_num = SeqNumber::new(101);
    let mut not_syn = synack();
    not_syn.syn = false;
    for header in [not_ack, wrong_ack, not_syn] {
        assert_eq!(classify_answer(&header, SeqNumber::new(99)), Answer::Unrelated);
        assert!(matches!(
            handshake.step(ConnectEvent::Received { header }),
            ConnectAction::SendSyn { .. }
        ));
        assert_eq!(handshake.control_block.connection_management.state, State::SynSent);
    }
    assert_eq!(handshake.attempts_left, 2);
}

#[test]
fn last_option_counts() {
    let options = vec![
        TcpOptions2::WindowScale(1),
        TcpOptions2::MaximumSegmentSize(500),
        TcpOptions2::Timestamp { sender_timestamp: 1, echo_timestamp: 2 },
        TcpOptions2::WindowScale(2),
        TcpOptions2::MaximumSegmentSize(600),
        TcpOptions2::SelectiveAcknowlegementPermitted,
        TcpOptions2::EndOfOptionsList,
    ];
    assert_eq!(parse_synack_options(&options), (Some(2), 600));
    assert_eq!(parse_synack_options(&Vec::new()), (None, FALLBACK_MSS));
}

#[test]
fn window_scale_is_limited() {
    assert_eq!(limit_window_scale(None), 0);
    assert_eq!(limit_window_scale(Some(0)), 0);
    assert_eq!(limit_window_scale(Some(14)), 14);
    assert_eq!(limit_window_scale(Some(15)), 14);
    assert_eq!(limit_window_scale(Some(255)), 14);
}

fn passive_config() -> PassiveOpenConfig {
    PassiveOpenConfig {
        local: remote(),
        remote: local(),
        local_isn: SeqNumber::new(u32::MAX),
        remote_isn: SeqNumber::new(99),
        tcp_config: config(5),
        socket_options: socket_options(),
        mss: 1460,
        local_window_scale_bits: 3,
        remote_window_scale_bits: 2,
        local_window_size_bytes: 0xffff << 3,
        remote_window_size_bytes: 500 << 2,
        ack_delay_timeout: Duration { nanos: 5 },
    }
}

#[test]
fn passive_open_evolves_into_the_built_connection() {
    let mut cb = create_control_block_for_listen(passive_config(), NoCongestionControl::new);
    assert_eq!(cb.connection_management.state, State::Listen);
    assert_eq!(cb.connection_management.remote, SocketAddrV4::unspecified());

    let mut syn = TcpHeader::new(4000, 80);
    syn.syn = true;
    syn.seq_num = SeqNumber::new(99);
    syn.window_size = 500;
    dispatch_syn_in_listen(
        &mut cb.connection_management,
        &mut cb.delivery,
        &mut cb.flow_control,
        &syn,
        local(),
        SeqNumber::new(u32::MAX),
        1460,
        2,
    );
    assert_eq!(cb.connection_management.state, State::SynReceived);
    assert_eq!(cb.connection_management.remote, local());
    assert_eq!(cb.delivery.receiver.receive_next_seq_no, SeqNumber::new(100));

    dispatch_ack_in_synrcvd(&mut cb.connection_management, &mut cb.delivery, &mut cb.flow_control);
    assert_eq!(cb.connection_management.state, State::Established);

    let built = build_control_block_for_passive_open(passive_config(), NoCongestionControl::new);
    assert_eq!(built.delivery.sender.send_next_seq_no, SeqNumber::new(0));
    assert_eq!(cb.connection_management, built.connection_management);
    assert_eq!(cb.delivery, built.delivery);
    assert_eq!(cb.flow_control, built.flow_control);
}

#[test]
fn both_ways_to_open_build_the_same_connection() {
    let passive = passive_config();
    let active = ActiveOpenConfig {
        local: passive.local,
        remote: passive.remote,
        local_isn: passive.local_isn,
        remote_isn: passive.remote_isn,
        tcp_config: passive.tcp_config,
        socket_options: passive.socket_options,
        mss: passive.mss,
        local_window_scale_bits: passive.local_window_scale_bits,
        remote_window_scale_bits: passive.remote_window_scale_bits,
        local_window_size_bytes: passive.local_window_size_bytes,
        remote_window_size_bytes: passive.remote_window_size_bytes,
        ack_delay_timeout: passive.ack_delay_timeout,
    };
    let accepted = build_control_block_for_passive_open(passive, NoCongestionControl::new);
    let connected = build_control_block_for_active_open(active, NoCongestionControl::new);
    assert_eq!(accepted.connection_management, connected.connection_management);
    assert_eq!(accepted.delivery, connected.delivery);
    assert_eq!(accepted.flow_control, connected.flow_control);
}

#[test]
fn synack_for_another_syn_is_an_error() {
    let mut cm = ConnectionManagementState::new_syn_sent(local(), remote(), config(5), socket_options());
    let isn = SeqNumber::new(99);
    let unknown = SeqNumber::new(0);
    let mut delivery =
        DeliveryState::starting_at(isn.plus(1), unknown, unknown, Duration { nanos: 5 }, 1000, 0);
    let mut flow = FlowControlState::new(isn.plus(1), unknown, 0, 0, FALLBACK_MSS);
    let before = (cm, delivery.clone(), flow);
    let mut header = synack();
    header.ack_num = SeqNumber::new(98);
    assert_eq!(
        dispatch_synack_in_synsent(&mut cm, &mut delivery, &mut flow, &header, isn, 0, 1460),
        Err("unexpected acknowledgement number in SYN+ACK")
    );
    assert_eq!((cm, delivery.clone(), flow), before);
    assert_eq!(
        dispatch_synack_in_synsent(&mut cm, &mut delivery, &mut flow, &synack(), isn, 0, 1460),
        Ok(())
    );
    assert_eq!(cm.state, State::Established);
}

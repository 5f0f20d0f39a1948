use demitcp::addr::{Ipv4Addr, SocketAddrV4};
use demitcp::config::{TcpConfig, TcpSocketOptions};
use demitcp::congestion_control::{CongestionControl, NoCongestionControl};
use demitcp::ctrlblk::{ControlBlock, State};
use demitcp::fail::{Errnos, FailKind};
use demitcp::flow_control_state::FlowControlState;
use demitcp::header::TcpHeader;
use demitcp::rto::RttEstimate;
use demitcp::sender::UnackedSegment;
use demitcp::seq_number::SeqNumber;
use demitcp::tcp_events::{build_control_block_for_passive_open, PassiveOpenConfig};
use demitcp::time::{Duration, Instant};

fn at(nanos: u64) -> Instant {
    Instant { nanos }
}

/// A connection with SND.UNA = 1001 and RCV.NXT = 5001.
fn connection() -> ControlBlock<NoCongestionControl> {
    let config = PassiveOpenConfig {
        local: SocketAddrV4 { ip: Ipv4Addr { bits: 0x0a00_0001 }, port: 80 },
        remote: SocketAddrV4 { ip: Ipv4Addr { bits: 0x0a00_0002 }, port: 4000 },
        local_isn: SeqNumber::new(1000),
        remote_isn: SeqNumber::new(5000),
        tcp_config: TcpConfig {
            advertised_mss: 1460,
            handshake_retries: 5,
            handshake_timeout: Duration { nanos: 9 },
            receive_window_size: 65535,
            window_scale: 0,
            ack_delay_timeout: Duration { nanos: 5 },
            rx_checksum_offload: false,
            tx_checksum_offload: true,
        },
        socket_options: TcpSocketOptions { keep_alive: false, linger: None, no_delay: true },
        mss: 100,
        local_window_scale_bits: 0,
        remote_window_scale_bits: 2,
        local_window_size_bytes: 65535,
        remote_window_size_bytes: 4000,
        ack_delay_timeout: Duration { nanos: 5 },
    };
    build_control_block_for_passive_open(config, NoCongestionControl::new)
}

fn data(len: usize, initial_tx: u64) -> UnackedSegment {
    UnackedSegment { bytes: Some((0..len).map(|i| i as u8).collect()), initial_tx: Some(at(initial_tx)) }
}

/// The connection after sending 30 and 50 bytes, and a FIN.
fn closing_connection(state: State) -> ControlBlock<NoCongestionControl> {
    let mut cb = connection();
    cb.delivery.sender.unacked_queue.push_back(data(30, 10));
    cb.delivery.sender.unacked_queue.push_back(data(50, 20));
    cb.delivery.sender.unacked_queue.push_back(UnackedSegment { bytes: None, initial_tx: Some(at(30)) });
    cb.delivery.sender.send_next_seq_no = SeqNumber::new(1082);
    cb.delivery.sender.sender_fin_seq_no = Some(SeqNumber::new(1081));
    cb.connection_management.state = state;
    cb
}

fn ack(ack_num: u32, window_size: u16) -> TcpHeader {
    let mut header = TcpHeader::new(4000, 80);
    header.ack = true;
    header.seq_num = SeqNumber::new(5001);
    header.ack_num = SeqNumber::new(ack_num);
    header.window_size = window_size;
    header
}

#[test]
fn segment_without_ack_is_rejected() {
    let mut cb = closing_connection(State::FinWait1);
    let mut header = ack(1082, 1024);
    header.ack = false;
    let fail = cb.check_and_process_ack(&header, at(100)).unwrap_err();
    assert_eq!(fail.kind, FailKind::BadMessage);
    assert_eq!(fail.cause, "Received non-ACK segment on established connection");
    assert_eq!(Errnos::current().errno(fail.kind), libc::EBADMSG);
    assert_eq!(cb.connection_management.state, State::FinWait1);
    assert_eq!(cb.delivery.sender.send_unacked, SeqNumber::new(1001));
    assert_eq!(cb.flow_control.send_window, 4000);
}

#[test]
fn ack_removes_what_it_covers() {
    let mut cb = closing_connection(State::FinWait1);
    assert!(cb.check_and_process_ack(&ack(1031, 1000), at(100)).is_ok());
    assert_eq!(cb.delivery.sender.send_unacked, SeqNumber::new(1031));
    assert_eq!(cb.delivery.sender.unacked_queue.len(), 2);
    assert_eq!(cb.delivery.sender.unacked_queue[0], data(50, 20));
    assert_eq!(cb.delivery.sender.retransmit_deadline_time_secs, Some(at(1_000_000_020)));
    assert_eq!(cb.connection_management.state, State::FinWait1);
    assert_eq!(
        cb.congestion_control.rto_calculator.estimate,
        Some(RttEstimate { srtt: Duration { nanos: 90 }, rttvar: Duration { nanos: 45 } })
    );
    assert_eq!(cb.flow_control.send_window, 4000);
}

#[test]
fn deadline_goes_by_the_new_timeout() {
    let second: u64 = 1_000_000_000;
    let mut cb = closing_connection(State::FinWait1);
    assert!(cb.check_and_process_ack(&ack(1031, 1000), at(10 + 2 * second)).is_ok());
    assert_eq!(cb.congestion_control.rto_calculator.rto(), Duration { nanos: 6 * second });
    assert_eq!(cb.delivery.sender.retransmit_deadline_time_secs, Some(at(20 + 6 * second)));
}

#[test]
fn partial_ack_keeps_the_tail() {
    let mut cb = closing_connection(State::FinWait1);
    assert!(cb.check_and_process_ack(&ack(1041, 1000), at(100)).is_ok());
    let front = &cb.delivery.sender.unacked_queue[0];
    assert_eq!(front.bytes, Some((10..50).collect::<Vec<u8>>()));
    assert_eq!(front.initial_tx, None);
    assert_eq!(cb.delivery.sender.retransmit_deadline_time_secs, Some(at(1_000_000_100)));
}

#[test]
fn acks_are_cumulative() {
    let mut twice = closing_connection(State::FinWait1);
    let mut once = closing_connection(State::FinWait1);
    assert!(twice.check_and_process_ack(&ack(1041, 1000), at(100)).is_ok());
    assert!(twice.check_and_process_ack(&ack(1046, 1000), at(200)).is_ok());
    assert!(once.check_and_process_ack(&ack(1046, 1000), at(200)).is_ok());
    assert_eq!(twice.delivery, once.delivery);
}

#[test]
fn samples_add_up() {
    let mut twice = closing_connection(State::FinWait1);
    let mut once = closing_connection(State::FinWait1);
    assert!(twice.check_and_process_ack(&ack(1011, 1000), at(100)).is_ok());
    assert!(twice.check_and_process_ack(&ack(1041, 1000), at(100)).is_ok());
    assert!(once.check_and_process_ack(&ack(1041, 1000), at(100)).is_ok());
    assert_eq!(twice.congestion_control.rto_calculator, once.congestion_control.rto_calculator);
}

#[test]
fn ack_of_fin_moves_the_state() {
    for (before, after) in [
        (State::FinWait1, State::FinWait2),
        (State::Closing, State::TimeWait),
        (State::LastAck, State::Closed),
    ] {
        let mut cb = closing_connection(before);
        assert!(cb.check_and_process_ack(&ack(1082, 1000), at(100)).is_ok());
        assert_eq!(cb.connection_management.state, after);
        assert!(cb.delivery.sender.unacked_queue.is_empty());
        assert_eq!(cb.delivery.sender.retransmit_deadline_time_secs, None);
        assert_eq!(cb.delivery.sender.send_unacked, SeqNumber::new(1082));
    }
}

#[test]
fn ack_of_all_data_but_the_fin_keeps_the_state() {
    let mut cb = closing_connection(State::LastAck);
    assert!(cb.check_and_process_ack(&ack(1081, 1000), at(100)).is_ok());
    assert_eq!(cb.connection_management.state, State::LastAck);
    assert_eq!(cb.delivery.sender.unacked_queue.len(), 1);
}

#[test]
fn duplicate_ack_changes_only_the_window() {
    let mut cb = closing_connection(State::FinWait1);
    let before = cb.delivery.clone();
    assert!(cb.check_and_process_ack(&ack(1001, 1024), at(100)).is_ok());
    assert_eq!(cb.delivery, before);
    assert_eq!(cb.connection_management.state, State::FinWait1);
    assert_eq!(cb.congestion_control.rto_calculator.estimate, None);
    assert_eq!(cb.flow_control.send_window, 4096);
}

#[test]
fn acks_that_do_not_fit_are_recognised() {
    let cb = closing_connection(State::FinWait1);
    assert!(cb.can_process_ack(&ack(1082, 1000)));
    assert!(cb.can_process_ack(&ack(1060, 1000)));
    // Beyond our FIN.
    assert!(!cb.can_process_ack(&ack(1083, 1000)));
    // No FIN has been sent in this state.
    assert!(!closing_connection(State::Established).can_process_ack(&ack(1082, 1000)));
    let mut unscaled = closing_connection(State::FinWait1);
    unscaled.flow_control.send_window_scale_shift_bits = 15;
    assert!(!unscaled.can_process_ack(&ack(1082, 1000)));
}

#[test]
fn window_update_takes_over_recent_windows() {
    let mut flow = FlowControlState::new(SeqNumber::new(1), SeqNumber::new(100), 0, 0, 1460);
    let mut header = TcpHeader::new(1, 2);
    header.seq_num = SeqNumber::new(100);
    header.ack_num = SeqNumber::new(1);
    header.window_size = 1024;
    flow.update_send_window(&header);
    assert_eq!(flow.send_window, 1024);

    // An older acknowledgement in the same place.
    header.ack_num = SeqNumber::new(0);
    header.window_size = 7;
    flow.update_send_window(&header);
    assert_eq!(flow.send_window, 1024);

    // An older segment.
    header.seq_num = SeqNumber::new(99);
    header.ack_num = SeqNumber::new(50);
    flow.update_send_window(&header);
    assert_eq!(flow.send_window, 1024);

    // A newer segment.
    header.seq_num = SeqNumber::new(101);
    header.ack_num = SeqNumber::new(0);
    flow.update_send_window(&header);
    assert_eq!(flow.send_window, 7);
}

#[test]
fn window_update_applies_the_scale() {
    let mut flow = FlowControlState::new(SeqNumber::new(1), SeqNumber::new(100), 0, 14, 1460);
    let mut header = TcpHeader::new(1, 2);
    header.seq_num = SeqNumber::new(200);
    header.window_size = u16::MAX;
    flow.update_send_window(&header);
    assert_eq!(flow.send_window, 65535 * 16384);
}

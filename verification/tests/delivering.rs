use demitcp::addr::{Ipv4Addr, SocketAddrV4};
use demitcp::config::{TcpConfig, TcpSocketOptions};
use demitcp::connection_management_state::ConnectionManagementState;
use demitcp::ctrlblk::State;
use demitcp::delivery_state::DeliveryState;
use demitcp::header::TcpHeader;
use demitcp::receiver::Receiver;
use demitcp::sender::Sender;
use demitcp::seq_number::SeqNumber;
use demitcp::time::{Duration, Instant};

fn management(state: State) -> ConnectionManagementState {
    let mut cm = ConnectionManagementState::new(
        SocketAddrV4 { ip: Ipv4Addr { bits: 0x0a00_0001 }, port: 80 },
        SocketAddrV4 { ip: Ipv4Addr { bits: 0x0a00_0002 }, port: 4000 },
        TcpConfig {
            advertised_mss: 1460,
            handshake_retries: 5,
            handshake_timeout: Duration { nanos: 9 },
            receive_window_size: 65535,
            window_scale: 0,
            ack_delay_timeout: Duration { nanos: 5 },
            rx_checksum_offload: false,
            tx_checksum_offload: true,
        },
        TcpSocketOptions { keep_alive: false, linger: None, no_delay: true },
    );
    cm.state = state;
    cm
}

/// SND.NXT = 1000, RCV.NXT = 5000, a buffer of 1000 bytes and a window scale of 1.
fn delivery() -> DeliveryState {
    DeliveryState::new(
        Sender::new(SeqNumber::new(1000)),
        Receiver::new(SeqNumber::new(5000), SeqNumber::new(5000), Duration { nanos: 5 }, 1000, 1),
    )
}

fn received(state: &DeliveryState) -> Vec<u8> {
    state.receiver.pop_queue.iter().flatten().copied().collect()
}

#[test]
fn data_in_order_is_received() {
    for state in [State::Established, State::FinWait1, State::FinWait2] {
        let mut delivery = delivery();
        let answer = delivery
            .handle_data(&management(state), vec![1, 2, 3], SeqNumber::new(5000), SeqNumber::new(5002), 3)
            .unwrap();
        assert_eq!(answer, None);
        assert_eq!(received(&delivery), vec![1, 2, 3]);
        assert_eq!(delivery.receiver.receive_next_seq_no, SeqNumber::new(5003));
    }
}

#[test]
fn data_after_fin_is_ignored() {
    for state in [
        State::Listen,
        State::SynSent,
        State::SynReceived,
        State::Closing,
        State::TimeWait,
        State::CloseWait,
        State::LastAck,
        State::Closed,
    ] {
        let mut delivery = delivery();
        let before = delivery.clone();
        let answer = delivery
            .handle_data(&management(state), vec![1, 2, 3], SeqNumber::new(5000), SeqNumber::new(5002), 3)
            .unwrap();
        assert_eq!(answer, None);
        assert_eq!(delivery, before);
    }
}

#[test]
fn early_data_is_kept_and_answered() {
    let mut delivery = delivery();
    let ack = delivery
        .handle_data(
            &management(State::Established),
            vec![4, 5],
            SeqNumber::new(5003),
            SeqNumber::new(5004),
            2,
        )
        .unwrap()
        .unwrap();
    assert!(received(&delivery).is_empty());
    assert_eq!(delivery.receiver.receive_next_seq_no, SeqNumber::new(5000));
    assert_eq!(delivery.receiver.out_of_order_frames.len(), 1);
    assert_eq!(delivery.receiver.out_of_order_frames[0].start, SeqNumber::new(5003));
    assert_eq!(delivery.receiver.out_of_order_frames[0].end, SeqNumber::new(5004));

    let mut header = TcpHeader::new(80, 4000);
    header.ack = true;
    header.seq_num = SeqNumber::new(1000);
    header.ack_num = SeqNumber::new(5000);
    header.window_size = 500;
    assert_eq!(ack.header, header);
    assert!(ack.payload.is_empty());
    assert_eq!(ack.source, Ipv4Addr { bits: 0x0a00_0001 });
    assert_eq!(ack.destination, Ipv4Addr { bits: 0x0a00_0002 });
    assert!(ack.checksum_offload);
}

#[test]
fn filling_the_hole_releases_early_data_in_order() {
    let cm = management(State::Established);
    let mut delivery = delivery();
    for (start, bytes) in [(5005, vec![6, 7]), (5003, vec![4, 5]), (5010, vec![11])] {
        let len = bytes.len() as u32;
        let end = SeqNumber::new(start + len - 1);
        assert!(delivery.handle_data(&cm, bytes, SeqNumber::new(start), end, len).unwrap().is_some());
    }
    assert!(delivery
        .handle_data(&cm, vec![1, 2, 3], SeqNumber::new(5000), SeqNumber::new(5002), 3)
        .unwrap()
        .is_none());
    assert_eq!(received(&delivery), vec![1, 2, 3, 4, 5, 6, 7]);
    assert_eq!(delivery.receiver.receive_next_seq_no, SeqNumber::new(5007));
    assert_eq!(delivery.receiver.out_of_order_frames.len(), 1);
}

#[test]
fn ack_reflects_the_current_state() {
    let mut delivery = delivery();
    delivery.receiver.receive_next_seq_no = SeqNumber::new(5100);
    delivery.sender.send_next_seq_no = SeqNumber::new(1234);
    let ack = delivery.send_ack(&management(State::CloseWait));
    assert_eq!(ack.header.seq_num, SeqNumber::new(1234));
    assert_eq!(ack.header.ack_num, SeqNumber::new(5100));
    assert_eq!(ack.header.window_size, 450);
    assert!(ack.header.ack);
}

#[test]
fn advertised_window_never_exceeds_the_room() {
    let mut receiver =
        Receiver::new(SeqNumber::new(0), SeqNumber::new(0), Duration { nanos: 0 }, 999, 2);
    assert_eq!(receiver.hdr_window_size(), 249);
    receiver.receive_next_seq_no = SeqNumber::new(2000);
    assert_eq!(receiver.hdr_window_size(), 0);
    let large = Receiver::new(SeqNumber::new(0), SeqNumber::new(0), Duration { nanos: 0 }, 1 << 20, 0);
    assert_eq!(large.hdr_window_size(), u16::MAX);
}

#[test]
fn emitted_segment_carries_header_and_body() {
    let delivery = delivery();
    let cm = management(State::Established);
    let mut header = TcpHeader::new(80, 4000);
    header.ack = true;
    let segment = delivery.emit(&cm, header.clone(), Some(vec![9, 8]));
    assert_eq!(segment.header, header);
    assert_eq!(segment.payload, vec![9, 8]);
    assert!(delivery.emit(&cm, header, None).payload.is_empty());
}

#[test]
fn only_a_sent_segment_cancels_the_delayed_ack() {
    let mut delivery = delivery();
    delivery.receiver.ack_deadline_time_secs = Some(Instant { nanos: 3 });
    delivery.on_emit_result(false);
    assert_eq!(delivery.receiver.ack_deadline_time_secs, Some(Instant { nanos: 3 }));
    delivery.on_emit_result(true);
    assert_eq!(delivery.receiver.ack_deadline_time_secs, None);
}

#[test]
fn unsent_buffers_leave_in_order() {
    let mut sender = Sender::new(SeqNumber::new(1));
    sender.push_unsent(vec![1]);
    sender.push_unsent(vec![2]);
    assert_eq!(sender.pop_unsent(), Some(vec![1]));
    assert_eq!(sender.pop_unsent(), Some(vec![2]));
    assert_eq!(sender.pop_unsent(), None);
}

#[test]
fn passed_frames_are_dropped() {
    let cm = management(State::Established);
    let mut delivery = delivery();
    // The same early data twice, and data that overlaps it.
    for start in [5003, 5003, 5004] {
        let end = SeqNumber::new(start + 1);
        assert!(delivery.handle_data(&cm, vec![4, 5], SeqNumber::new(start), end, 2).is_ok());
    }
    assert!(delivery
        .handle_data(&cm, vec![9], SeqNumber::new(5008), SeqNumber::new(5008), 1)
        .is_ok());
    assert_eq!(delivery.receiver.out_of_order_frames.len(), 4);
    assert!(delivery
        .handle_data(&cm, vec![1, 2, 3], SeqNumber::new(5000), SeqNumber::new(5002), 3)
        .is_ok());
    assert_eq!(received(&delivery), vec![1, 2, 3, 4, 5]);
    assert_eq!(delivery.receiver.receive_next_seq_no, SeqNumber::new(5005));
    assert_eq!(delivery.receiver.out_of_order_frames.len(), 1);
    assert_eq!(delivery.receiver.out_of_order_frames[0].start, SeqNumber::new(5008));
}

#[test]
fn any_order_of_arrival_delivers_the_stream() {
    let cm = management(State::Established);
    let stream: Vec<u8> = (0..8).collect();
    for order in [[0, 1, 2, 3], [3, 2, 1, 0], [2, 2, 0, 1], [1, 3, 1, 0]] {
        let mut delivery = delivery();
        for piece in order.into_iter().chain(0..4) {
            let start = SeqNumber::new(5000 + 2 * piece);
            let data = stream[2 * piece as usize..][..2].to_vec();
            assert!(delivery.handle_data(&cm, data, start, start.plus(1), 2).is_ok());
        }
        assert_eq!(received(&delivery), stream);
    }
}

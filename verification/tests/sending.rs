use demitcp::addr::{Ipv4Addr, SocketAddrV4};
use demitcp::config::{TcpConfig, TcpSocketOptions};
use demitcp::congestion_control::{CongestionControl, NoCongestionControl};
use demitcp::ctrlblk::{ControlBlock, SendStep};
use demitcp::delivery_state::next_probe_timeout;
use demitcp::sender::UnackedSegment;
use demitcp::seq_number::SeqNumber;
use demitcp::tcp_events::{build_control_block_for_active_open, ActiveOpenConfig};
use demitcp::time::{Duration, Instant};

fn at(nanos: u64) -> Instant {
    Instant { nanos }
}

fn connection(remote_window_size_bytes: u32, mss: usize) -> ControlBlock<NoCongestionControl> {
    let config = ActiveOpenConfig {
        local: SocketAddrV4 { ip: Ipv4Addr { bits: 1 }, port: 4000 },
        remote: SocketAddrV4 { ip: Ipv4Addr { bits: 2 }, port: 80 },
        local_isn: SeqNumber::new(99),
        remote_isn: SeqNumber::new(499),
        tcp_config: TcpConfig {
            advertised_mss: 1460,
            handshake_retries: 5,
            handshake_timeout: Duration { nanos: 9 },
            receive_window_size: 65535,
            window_scale: 0,
            ack_delay_timeout: Duration { nanos: 5 },
            rx_checksum_offload: false,
            tx_checksum_offload: true,
        },
        socket_options: TcpSocketOptions { keep_alive: false, linger: None, no_delay: true },
        mss,
        local_window_scale_bits: 0,
        remote_window_scale_bits: 0,
        local_window_size_bytes: 65535,
        remote_window_size_bytes,
        ack_delay_timeout: Duration { nanos: 5 },
    };
    build_control_block_for_active_open(config, NoCongestionControl::new)
}

#[test]
fn segment_is_cut_to_size() {
    let mut cb = connection(1000, 3);
    let mut buffer = vec![1, 2, 3, 4, 5];
    let (sent, segment) = cb.send_segment(at(7), &mut buffer);
    assert_eq!(sent, 3);
    assert_eq!(buffer, vec![4, 5]);
    let segment = segment.unwrap();
    assert_eq!(segment.payload, vec![1, 2, 3]);
    assert!(!segment.header.psh);
    assert!(segment.header.ack);
    assert_eq!(segment.header.seq_num, SeqNumber::new(100));
    assert_eq!(segment.header.ack_num, SeqNumber::new(500));
    assert_eq!(segment.header.window_size, 65535);
    assert_eq!(cb.delivery.sender.send_next_seq_no, SeqNumber::new(103));
    assert_eq!(cb.delivery.sender.unacked_queue[0].bytes, Some(vec![1, 2, 3]));
    assert_eq!(cb.delivery.sender.unacked_queue[0].initial_tx, Some(at(7)));
    assert_eq!(cb.delivery.sender.retransmit_deadline_time_secs, Some(at(1_000_000_007)));

    let (sent, segment) = cb.send_segment(at(9), &mut buffer);
    assert_eq!(sent, 2);
    assert!(buffer.is_empty());
    let segment = segment.unwrap();
    assert!(segment.header.psh);
    assert_eq!(segment.header.seq_num, SeqNumber::new(103));
    // The timer keeps running from the first transmission.
    assert_eq!(cb.delivery.sender.retransmit_deadline_time_secs, Some(at(1_000_000_007)));
}

#[test]
fn window_limits_what_is_in_flight() {
    let mut cb = connection(4, 3);
    let mut buffer = vec![1, 2, 3, 4, 5];
    assert_eq!(cb.send_segment(at(7), &mut buffer).0, 3);
    assert_eq!(cb.send_segment(at(7), &mut buffer).0, 1);
    let before = cb.delivery.clone();
    let (sent, segment) = cb.send_segment(at(7), &mut buffer);
    assert_eq!(sent, 0);
    assert_eq!(segment, None);
    assert_eq!(buffer, vec![5]);
    assert_eq!(cb.delivery, before);
}

#[test]
fn buffer_is_sent_step_by_step() {
    let mut cb = connection(4, 3);
    let mut buffer = vec![1, 2, 3, 4];
    match cb.send_buffer(at(7), &mut buffer) {
        SendStep::Segment { segment, finished } => {
            assert_eq!(segment.unwrap().payload, vec![1, 2, 3]);
            assert!(!finished);
        }
        other => panic!("unexpected step {:?}", other),
    }
    match cb.send_buffer(at(8), &mut buffer) {
        SendStep::Segment { segment, finished } => {
            assert_eq!(segment.unwrap().payload, vec![4]);
            assert!(finished);
        }
        other => panic!("unexpected step {:?}", other),
    }
}

#[test]
fn full_window_leaves_the_buffer_alone() {
    let mut cb = connection(2, 10);
    let mut buffer = vec![1, 2, 3];
    assert_eq!(cb.send_segment(at(7), &mut buffer).0, 2);
    match cb.send_buffer(at(8), &mut buffer) {
        SendStep::Segment { segment, finished } => {
            assert_eq!(segment, None);
            assert!(!finished);
        }
        other => panic!("unexpected step {:?}", other),
    }
    assert_eq!(buffer, vec![3]);
}

#[test]
fn closed_window_is_probed_with_one_byte() {
    let mut cb = connection(0, 10);
    let mut buffer = vec![1, 2];
    match cb.send_buffer(at(8), &mut buffer) {
        SendStep::WindowProbe { probe, finished } => {
            assert_eq!(probe.payload, vec![1]);
            assert_eq!(probe.header.seq_num, SeqNumber::new(100));
            assert!(!finished);
        }
        other => panic!("unexpected step {:?}", other),
    }
    assert_eq!(buffer, vec![2]);
    assert_eq!(cb.delivery.sender.send_next_seq_no, SeqNumber::new(101));
    assert_eq!(cb.delivery.sender.unacked_queue[0].bytes, Some(vec![1]));
    match cb.send_buffer(at(9), &mut buffer) {
        SendStep::WindowProbe { probe, finished } => {
            assert_eq!(probe.payload, vec![2]);
            assert!(finished);
        }
        other => panic!("unexpected step {:?}", other),
    }
}

#[test]
fn probes_are_repeated_less_and_less_often() {
    let second: u64 = 1_000_000_000;
    let first = next_probe_timeout(None);
    assert_eq!(first, Duration { nanos: second });
    assert_eq!(next_probe_timeout(Some(first)), Duration { nanos: 2 * second });
    let last = Duration { nanos: u64::MAX };
    assert_eq!(next_probe_timeout(Some(Duration { nanos: u64::MAX / 2 + 1 })), last);
    assert_eq!(next_probe_timeout(Some(last)), last);
}

#[test]
fn oldest_segment_is_sent_again() {
    let mut cb = connection(1000, 3);
    let mut buffer = vec![1, 2, 3, 4, 5];
    cb.send_segment(at(7), &mut buffer);
    cb.send_segment(at(8), &mut buffer);
    let cm = cb.connection_management;
    let segment = cb.delivery.retransmit(&cm, Duration { nanos: 40 }, at(100)).unwrap();
    assert_eq!(segment.payload, vec![1, 2, 3]);
    assert_eq!(segment.header.seq_num, SeqNumber::new(100));
    assert_eq!(segment.header.ack_num, SeqNumber::new(500));
    assert!(segment.header.psh);
    assert!(segment.header.ack);
    assert!(!segment.header.fin);
    let sender = &cb.delivery.sender;
    assert_eq!(sender.retransmit_deadline_time_secs, Some(at(140)));
    assert_eq!(sender.send_next_seq_no, SeqNumber::new(105));
    assert_eq!(
        sender.unacked_queue[0],
        UnackedSegment { bytes: Some(vec![1, 2, 3]), initial_tx: None }
    );
    assert_eq!(
        sender.unacked_queue[1],
        UnackedSegment { bytes: Some(vec![4, 5]), initial_tx: Some(at(8)) }
    );

    // It yields no sample any more.
    let mut ack = segment.header.clone();
    ack.ack_num = SeqNumber::new(103);
    assert!(cb.check_and_process_ack(&ack, at(200)).is_ok());
    assert_eq!(cb.congestion_control.rto_calculator.estimate, None);
}

#[test]
fn fin_is_sent_again() {
    let mut cb = connection(1000, 3);
    let cm = cb.connection_management;
    cb.delivery.sender.unacked_queue.push_back(UnackedSegment { bytes: None, initial_tx: Some(at(1)) });
    cb.delivery.sender.send_next_seq_no = SeqNumber::new(101);
    let segment = cb.delivery.retransmit(&cm, Duration { nanos: 40 }, at(100)).unwrap();
    assert!(segment.header.fin);
    assert!(!segment.header.psh);
    assert_eq!(segment.header.seq_num, SeqNumber::new(100));
    assert!(segment.payload.is_empty());
}

#[test]
fn nothing_is_sent_again_once_all_is_acknowledged() {
    let mut cb = connection(1000, 3);
    let cm = cb.connection_management;
    cb.delivery.sender.retransmit_deadline_time_secs = Some(at(3));
    assert_eq!(cb.delivery.retransmit(&cm, Duration { nanos: 40 }, at(100)), None);
    assert_eq!(cb.delivery.sender.retransmit_deadline_time_secs, None);
}

#[test]
fn whole_buffer_goes_out_once() {
    let mut cb = connection(0, 3);
    let whole: Vec<u8> = (0..9).collect();
    let mut buffer = whole.clone();
    let mut pieces: Vec<u8> = Vec::new();
    loop {
        let (segment, finished) = match cb.send_buffer(at(8), &mut buffer) {
            SendStep::WindowProbe { probe, finished } => (Some(probe), finished),
            SendStep::Segment { segment, finished } => (segment, finished),
        };
        if let Some(segment) = segment {
            assert_eq!(segment.header.seq_num, SeqNumber::new(100 + pieces.len() as u32));
            pieces.extend(segment.payload);
        }
        let mut left = pieces.clone();
        left.extend(&buffer);
        assert_eq!(left, whole);
        if finished {
            break;
        }
        // The peer opens its window a little further.
        cb.flow_control.send_window += 2;
    }
    assert_eq!(pieces, whole);
    assert_eq!(cb.delivery.sender.send_next_seq_no, SeqNumber::new(109));
}

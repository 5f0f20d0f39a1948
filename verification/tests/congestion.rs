use demitcp::addr::{Ipv4Addr, SocketAddrV4};
use demitcp::config::{TcpConfig, TcpSocketOptions};
use demitcp::congestion_control::{
    CongestionControl, FastRetransmitRecovery, LimitedTransmit, NoCongestionControl, Options,
    SlowStartCongestionAvoidance,
};
use demitcp::congestion_control_state::{CongestionControlState, RetransmitAction, RetransmitEvent};
use demitcp::connection_management_state::ConnectionManagementState;
use demitcp::ctrlblk::ControlBlock;
use demitcp::delivery_state::DeliveryState;
use demitcp::fail::FailKind;
use demitcp::flow_control_state::FlowControlState;
use demitcp::header::TcpHeader;
use demitcp::rto::{RtoCalculator, RttEstimate};
use demitcp::sender::UnackedSegment;
use demitcp::seq_number::SeqNumber;
use demitcp::time::{Duration, Instant};

/// An algorithm that writes down what it is told.
struct Recorder {
    cwnd: u32,
    increase: u32,
    flag: bool,
    log: Vec<String>,
}

impl Recorder {
    fn with_windows(cwnd: u32, increase: u32) -> Recorder {
        Recorder { cwnd, increase, flag: false, log: Vec::new() }
    }
}

impl SlowStartCongestionAvoidance for Recorder {
    fn cwnd(&self) -> u32 {
        self.cwnd
    }

    fn get_cwnd(&self) -> u32 {
        self.cwnd
    }

    fn on_cwnd_check_before_send(&mut self) {
        self.log.push(String::from("check"));
    }

    fn on_rto(&mut self, send_unacked: SeqNumber) {
        self.log.push(format!("rto {}", send_unacked.value));
    }

    fn on_send(&mut self, rto: Duration, num_sent_bytes: u32) {
        self.log.push(format!("send {} {}", rto.nanos, num_sent_bytes));
    }
}

impl FastRetransmitRecovery for Recorder {
    fn retransmit_now(&self) -> bool {
        self.flag
    }

    fn get_retransmit_now_flag(&self) -> bool {
        self.flag
    }

    fn on_fast_retransmit(&mut self) {
        self.flag = false;
        self.log.push(String::from("fast"));
    }
}

impl LimitedTransmit for Recorder {
    fn limited_transmit_cwnd_increase(&self) -> u32 {
        self.increase
    }

    fn get_limited_transmit_cwnd_increase(&self) -> u32 {
        self.increase
    }
}

impl CongestionControl for Recorder {
    fn new(mss: usize, seq_no: SeqNumber, _options: Option<Options>) -> Recorder {
        let mut algorithm = Recorder::with_windows(0, 0);
        algorithm.log.push(format!("new {} {}", mss, seq_no.value));
        algorithm
    }
}

fn duration(nanos: u64) -> Duration {
    Duration { nanos }
}

fn at(nanos: u64) -> Instant {
    Instant { nanos }
}

fn delivery(send_unacked: u32, send_next: u32) -> DeliveryState {
    let mut state = DeliveryState::starting_at(
        SeqNumber::new(send_unacked),
        SeqNumber::new(0),
        SeqNumber::new(0),
        duration(5),
        65535,
        0,
    );
    state.sender.send_next_seq_no = SeqNumber::new(send_next);
    state
}

fn flow(send_window: u32, mss: usize) -> FlowControlState {
    FlowControlState::new(SeqNumber::new(0), SeqNumber::new(0), send_window, 0, mss)
}

fn data(len: usize, initial_tx: Option<u64>) -> UnackedSegment {
    UnackedSegment { bytes: Some(vec![7; len]), initial_tx: initial_tx.map(at) }
}

fn estimate(srtt: u64, rttvar: u64) -> RttEstimate {
    RttEstimate { srtt: duration(srtt), rttvar: duration(rttvar) }
}

/// What a new connection knows of the round-trip time after an acknowledgement.
fn estimate_after(sending: &DeliveryState, ack_num: u32) -> Option<RttEstimate> {
    let mut state = CongestionControlState::new(NoCongestionControl {});
    state.process_ack_state_change(sending, &ack(ack_num), at(100));
    state.rto_calculator.estimate
}

fn ack(ack_num: u32) -> TcpHeader {
    let mut header = TcpHeader::new(1, 2);
    header.ack = true;
    header.ack_num = SeqNumber::new(ack_num);
    header
}

fn control_block<C: CongestionControl>(algorithm: C, delivery: DeliveryState) -> ControlBlock<C> {
    let end = SocketAddrV4 { ip: Ipv4Addr { bits: 1 }, port: 2 };
    let config = TcpConfig {
        advertised_mss: 1460,
        handshake_retries: 5,
        handshake_timeout: duration(9),
        receive_window_size: 65535,
        window_scale: 0,
        ack_delay_timeout: duration(5),
        rx_checksum_offload: false,
        tx_checksum_offload: false,
    };
    let options = TcpSocketOptions { keep_alive: false, linger: None, no_delay: true };
    ControlBlock::new(
        ConnectionManagementState::new(end, end, config, options),
        delivery,
        flow(1000, 100),
        CongestionControlState::new(algorithm),
    )
}

#[test]
fn default_handlers_do_nothing() {
    let mut algorithm = NoCongestionControl::new(1460, SeqNumber::new(1), None);
    let seq = SeqNumber::new(3);
    algorithm.on_cwnd_check_before_send();
    algorithm.on_ack_received(duration(1), seq, seq, seq);
    algorithm.on_rto(seq);
    algorithm.on_send(duration(1), 10);
    algorithm.on_fast_retransmit();
    algorithm.handle_dup_ack(seq, seq);
    algorithm.reset_dup_ack_count();
    assert_eq!(algorithm, NoCongestionControl {});
    assert_eq!(algorithm.get_duplicate_ack_count(), 0);
    assert_eq!(algorithm.get_cwnd(), u32::MAX);
    assert_eq!(algorithm.get_limited_transmit_cwnd_increase(), 0);
    assert!(!algorithm.get_retransmit_now_flag());
}

#[test]
fn open_window_needs_room_in_both_windows() {
    type State = CongestionControlState<NoCongestionControl>;
    assert!(State::has_open_window(10, 10, 10));
    assert!(!State::has_open_window(0, 0, 10));
    assert!(!State::has_open_window(9, 10, 10));
    assert!(!State::has_open_window(10, 10, 9));
    assert_eq!(State::calculate_open_window_bytes(1000, 200, 500, 10_000), 500);
    assert_eq!(State::calculate_open_window_bytes(1000, 800, 500, 10_000), 200);
    assert_eq!(State::calculate_open_window_bytes(1000, 200, 500, 250), 50);
}

#[test]
fn open_window_counts_limited_transmit() {
    let mut state = CongestionControlState::new(Recorder::with_windows(300, 200));
    let size = state.get_open_window_size_bytes(&delivery(0, 400), &flow(10_000, 1460));
    assert_eq!(size, 100);
    assert_eq!(state.cc_algorithm.log, vec!["check"]);
}

#[test]
fn open_window_saturates() {
    let mut state = CongestionControlState::new(Recorder::with_windows(u32::MAX, 200));
    assert_eq!(state.get_open_window_size_bytes(&delivery(0, 0), &flow(10_000, 1460)), 1460);
}

#[test]
fn closed_window_allows_nothing() {
    let mut state = CongestionControlState::new(Recorder::with_windows(300, 0));
    assert_eq!(state.get_open_window_size_bytes(&delivery(0, 0), &flow(0, 1460)), 0);
    assert_eq!(state.get_open_window_size_bytes(&delivery(0, 400), &flow(500, 1460)), 0);
}

#[test]
fn in_flight_wraps_around() {
    let mut state = CongestionControlState::new(Recorder::with_windows(300, 0));
    let size = state.get_open_window_size_bytes(&delivery(u32::MAX - 9, 10), &flow(100, 1460));
    assert_eq!(size, 80);
}

#[test]
fn algorithm_is_told_of_check_and_transmission() {
    let mut state = CongestionControlState::new(Recorder::with_windows(300, 0));
    state.rto_calculator.timeout = duration(77);
    assert_eq!(state.get_max_frame_size(&delivery(100, 150), &flow(10_000, 1460)), 250);
    assert_eq!(state.cc_algorithm.log, vec!["check", "send 77 50"]);
}

#[test]
fn sample_needs_a_transmission_time() {
    let mut state = CongestionControlState::new(NoCongestionControl {});
    state.add_sample(None, at(50));
    assert_eq!(state.rto_calculator, RtoCalculator::new());
    state.add_sample(Some(at(30)), at(110));
    assert_eq!(state.rto_calculator.estimate, Some(estimate(80, 40)));
    // A transmission time that lies ahead counts as no time at all.
    state.add_sample(Some(at(200)), at(110));
    assert_eq!(state.rto_calculator.estimate, Some(estimate(70, 50)));
}

#[test]
fn ack_samples_covered_segments_up_to_fin() {
    let mut sending = delivery(1000, 1061);
    sending.sender.unacked_queue.push_back(data(20, Some(10)));
    sending.sender.unacked_queue.push_back(data(20, None));
    sending.sender.unacked_queue.push_back(data(20, Some(30)));
    sending.sender.unacked_queue.push_back(UnackedSegment { bytes: None, initial_tx: Some(at(40)) });

    assert_eq!(estimate_after(&sending, 1020), Some(estimate(90, 45)));
    // The first byte of a segment is enough.
    let both = Some(estimate((7 * 90 + 70) / 8, (3 * 45 + 20) / 4));
    assert_eq!(estimate_after(&sending, 1041), both);
    assert_eq!(estimate_after(&sending, 1061), both);
    // Duplicates yield nothing.
    assert_eq!(estimate_after(&sending, 1000), None);
}

#[test]
fn timeout_follows_the_samples() {
    let second: u64 = 1_000_000_000;
    let mut calculator = RtoCalculator::new();
    assert_eq!(calculator.rto(), duration(second));
    calculator.add_sample(duration(2 * second));
    assert_eq!(calculator.estimate, Some(estimate(2 * second, second)));
    assert_eq!(calculator.rto(), duration(6 * second));
    calculator.add_sample(duration(second));
    assert_eq!(calculator.estimate, Some(estimate(1_875_000_000, second)));
    assert_eq!(calculator.rto(), duration(5_875_000_000));
    let before = calculator;
    calculator.back_off();
    assert_eq!(calculator.rto(), duration(11_750_000_000));
    assert_eq!(calculator.estimate, before.estimate);
    // The next sample undoes the back-off.
    let mut other = before;
    other.add_sample(duration(second));
    calculator.add_sample(duration(second));
    assert_eq!(calculator, other);
}

#[test]
fn timeout_stays_between_a_second_and_a_minute() {
    let mut calculator = RtoCalculator::new();
    calculator.add_sample(duration(5));
    assert_eq!(calculator.rto(), duration(1_000_000_000));
    calculator.add_sample(duration(u64::MAX));
    calculator.add_sample(duration(0));
    assert_eq!(calculator.rto(), duration(60_000_000_000));
    let mut calculator = RtoCalculator::new();
    for _ in 0..5 {
        calculator.back_off();
    }
    assert_eq!(calculator.rto(), duration(32_000_000_000));
    calculator.back_off();
    assert_eq!(calculator.rto(), duration(60_000_000_000));
}

#[test]
fn retransmitter_waits_for_the_deadline() {
    let mut sending = delivery(1, 2);
    sending.sender.retransmit_deadline_time_secs = Some(at(500));
    let mut cb = control_block(Recorder::with_windows(1, 1), sending);
    let action =
        CongestionControlState::background_retransmitter_cc(&mut cb, RetransmitEvent::Resumed);
    assert_eq!(action, RetransmitAction::Wait { deadline: Some(at(500)) });
    assert!(cb.congestion_control.cc_algorithm.log.is_empty());
}

#[test]
fn retransmitter_reports_fast_retransmit() {
    let mut cb = control_block(Recorder::with_windows(1, 1), delivery(1, 2));
    cb.congestion_control.cc_algorithm.flag = true;
    let action =
        CongestionControlState::background_retransmitter_cc(&mut cb, RetransmitEvent::Resumed);
    assert_eq!(action, RetransmitAction::Retransmit);
    assert_eq!(cb.congestion_control.cc_algorithm.log, vec!["fast"]);
    assert!(!cb.congestion_control.cc_algorithm.get_retransmit_now_flag());
    let action =
        CongestionControlState::background_retransmitter_cc(&mut cb, RetransmitEvent::Resumed);
    assert_eq!(action, RetransmitAction::Wait { deadline: None });
}

#[test]
fn retransmitter_backs_off_after_timeout() {
    let mut cb = control_block(Recorder::with_windows(1, 1), delivery(41, 50));
    let action =
        CongestionControlState::background_retransmitter_cc(&mut cb, RetransmitEvent::DeadlinePassed);
    assert_eq!(action, RetransmitAction::Retransmit);
    assert_eq!(cb.congestion_control.cc_algorithm.log, vec!["rto 41"]);
    assert_eq!(cb.congestion_control.rto_calculator.rto(), duration(2_000_000_000));
}

#[test]
fn retransmitter_stops_once_fin_is_acked() {
    let mut cb = control_block(Recorder::with_windows(1, 1), delivery(41, 50));
    let changed = RetransmitEvent::SomethingChanged;
    assert_eq!(
        CongestionControlState::background_retransmitter_cc(&mut cb, changed),
        RetransmitAction::Resume
    );
    cb.delivery.sender.sender_fin_seq_no = Some(SeqNumber::new(41));
    assert_eq!(
        CongestionControlState::background_retransmitter_cc(&mut cb, changed),
        RetransmitAction::Resume
    );
    cb.delivery.sender.send_unacked = SeqNumber::new(42);
    match CongestionControlState::background_retransmitter_cc(&mut cb, changed) {
        RetransmitAction::Stop(fail) => {
            assert_eq!(fail.kind, FailKind::ConnectionReset);
            assert_eq!(fail.cause, "connection closed");
        }
        other => panic!("unexpected action {:?}", other),
    }
}

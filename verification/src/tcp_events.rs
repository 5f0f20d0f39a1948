//! The events of a TCP handshake. A dispatcher hands an event to one component after the
//! other, and each component updates only its own state.
use crate::addr::{unspecified_addr, SocketAddrV4};
use crate::config::{TcpConfig, TcpSocketOptions, FALLBACK_MSS, MAX_WINDOW_SCALE};
use crate::congestion_control::{CongestionControl, Options};
use crate::congestion_control_state::CongestionControlState;
use crate::connection_management_state::ConnectionManagementState;
use crate::ctrlblk::{ControlBlock, State};
use crate::delivery_state::{unexpected_ack_cause, DeliveryState, DeliveryView};
use crate::flow_control_state::FlowControlState;
use crate::header::TcpHeader;
use crate::rto::RtoCalculator;
use crate::seq_number::SeqNumber;
use crate::time::Duration;
use vstd::prelude::*;

verus! {

/// Processes a SYN that arrives in state LISTEN: LISTEN -> SYN_RECEIVED.
pub fn dispatch_syn_in_listen(
    conn_mgmt: &mut ConnectionManagementState,
    delivery: &mut DeliveryState,
    flow_control: &mut FlowControlState,
    header: &TcpHeader,
    remote: SocketAddrV4,
    local_isn: SeqNumber,
    mss: usize,
    window_scale_bits: u8,
)
    requires
        old(conn_mgmt).state == State::Listen,
        window_scale_bits <= MAX_WINDOW_SCALE,
    ensures
        *final(conn_mgmt) == (ConnectionManagementState {
            remote,
            state: State::SynReceived,
            ..*old(conn_mgmt)
        }),
        final(delivery)@ == old(delivery)@.synchronized(header@.seq_num),
        *final(flow_control) == FlowControlState::negotiated(
            header@.window_size,
            window_scale_bits,
            mss,
            header@.seq_num.advanced(1),
            local_isn.advanced(1),
        ),
{
    let remote_isn: SeqNumber = header.seq_num;
    delivery.on_syn_in_listen(remote_isn);
    flow_control.on_syn_in_listen(header, remote_isn, local_isn, mss, window_scale_bits);
    conn_mgmt.on_syn_in_listen(remote);
}

/// Processes a SYN+ACK that arrives in state SYN_SENT: SYN_SENT -> ESTABLISHED. A SYN+ACK
/// that does not acknowledge our SYN is an error, and changes nothing.
pub fn dispatch_synack_in_synsent(
    conn_mgmt: &mut ConnectionManagementState,
    delivery: &mut DeliveryState,
    flow_control: &mut FlowControlState,
    header: &TcpHeader,
    local_isn: SeqNumber,
    window_scale_bits: u8,
    mss: usize,
) -> (result: Result<(), &'static str>)
    requires
        old(conn_mgmt).state == State::SynSent,
        window_scale_bits <= MAX_WINDOW_SCALE,
    ensures
        header@.ack_num == local_isn.advanced(1) ==> {
            &&& result is Ok
            &&& *final(conn_mgmt) == (ConnectionManagementState {
                state: State::Established,
                ..*old(conn_mgmt)
            })
            &&& final(delivery)@ == old(delivery)@.synchronized(header@.seq_num)
            &&& *final(flow_control) == FlowControlState::negotiated(
                header@.window_size,
                window_scale_bits,
                mss,
                header@.seq_num.advanced(1),
                header@.ack_num,
            )
        },
        header@.ack_num != local_isn.advanced(1) ==> {
            &&& result is Err
            &&& result->Err_0@ == unexpected_ack_cause()
            &&& *final(conn_mgmt) == *old(conn_mgmt)
            &&& *final(delivery) == *old(delivery)
            &&& *final(flow_control) == *old(flow_control)
        },
{
    match delivery.on_synack_in_synsent(header.seq_num, local_isn, header.ack_num) {
        Ok(_) => {},
        Err(cause) => {
            return Err(cause);
        },
    }
    flow_control.on_synack_in_synsent(header, window_scale_bits, mss);
    conn_mgmt.on_synack_in_synsent();
    Ok(())
}

/// Processes an ACK that arrives in state SYN_RECEIVED: SYN_RECEIVED -> ESTABLISHED. Only
/// connection management has something to update.
pub fn dispatch_ack_in_synrcvd(
    conn_mgmt: &mut ConnectionManagementState,
    _delivery: &mut DeliveryState,
    _flow_control: &mut FlowControlState,
)
    requires
        old(conn_mgmt).state == State::SynReceived,
    ensures
        *final(conn_mgmt) == (ConnectionManagementState {
            state: State::Established,
            ..*old(conn_mgmt)
        }),
        *final(_delivery) == *old(_delivery),
        *final(_flow_control) == *old(_flow_control),
{
    conn_mgmt.on_ack_in_synrcvd();
}

/// What is known of a connection when a passive open is complete.
#[derive(Clone, Copy, Debug, PartialEq, Eq, Structural)]
pub struct PassiveOpenConfig {
    pub local: SocketAddrV4,
    pub remote: SocketAddrV4,
    pub local_isn: SeqNumber,
    pub remote_isn: SeqNumber,
    pub tcp_config: TcpConfig,
    pub socket_options: TcpSocketOptions,
    pub mss: usize,
    pub local_window_scale_bits: u8,
    pub remote_window_scale_bits: u8,
    pub local_window_size_bytes: u32,
    pub remote_window_size_bytes: u32,
    pub ack_delay_timeout: Duration,
}

/// What is known of a connection when an active open is complete.
#[derive(Clone, Copy, Debug, PartialEq, Eq, Structural)]
pub struct ActiveOpenConfig {
    pub local: SocketAddrV4,
    pub remote: SocketAddrV4,
    pub local_isn: SeqNumber,
    pub remote_isn: SeqNumber,
    pub tcp_config: TcpConfig,
    pub socket_options: TcpSocketOptions,
    pub mss: usize,
    pub local_window_scale_bits: u8,
    pub remote_window_scale_bits: u8,
    pub local_window_size_bytes: u32,
    pub remote_window_size_bytes: u32,
    pub ack_delay_timeout: Duration,
}

/// What is known of a connection when its first SYN is sent.
#[derive(Clone, Copy, Debug, PartialEq, Eq, Structural)]
pub struct SynSentConfig {
    pub local: SocketAddrV4,
    pub remote: SocketAddrV4,
    pub local_isn: SeqNumber,
    pub tcp_config: TcpConfig,
    pub socket_options: TcpSocketOptions,
    pub local_window_scale_bits: u8,
    pub local_window_size_bytes: u32,
    pub ack_delay_timeout: Duration,
}

/// The components of a control block but for congestion control.
#[verifier::ext_equal]
pub struct Setup {
    pub connection_management: ConnectionManagementState,
    pub delivery: DeliveryView,
    pub flow_control: FlowControlState,
}

/// The components of a control block but for congestion control.
pub open spec fn setup_of<C: CongestionControl>(cb: ControlBlock<C>) -> Setup {
    Setup {
        connection_management: cb.connection_management,
        delivery: cb.delivery@,
        flow_control: cb.flow_control,
    }
}

/// A connection whose handshake is complete. Both sides continue right behind the sequence
/// number of their SYN. A window is given by its size in bytes and its scale.
pub open spec fn established_setup(
    connection_management: ConnectionManagementState,
    local_isn: SeqNumber,
    remote_isn: SeqNumber,
    ack_delay_timeout: Duration,
    local_window: (u32, u8),
    remote_window: (u32, u8),
    mss: usize,
) -> Setup {
    Setup {
        connection_management,
        delivery: DeliveryView::fresh(
            local_isn.advanced(1),
            remote_isn.advanced(1),
            ack_delay_timeout,
            local_window.0,
            local_window.1,
        ),
        flow_control: FlowControlState {
            send_window: remote_window.0,
            send_window_last_update_seq: remote_isn.advanced(1),
            send_window_last_update_ack: local_isn.advanced(1),
            send_window_scale_shift_bits: remote_window.1,
            mss,
        },
    }
}

/// A connection before anything has arrived from the peer. Nothing is known of the peer's
/// sequence numbers and window.
pub open spec fn unanswered_setup(
    connection_management: ConnectionManagementState,
    local_isn: SeqNumber,
    ack_delay_timeout: Duration,
    local_window: (u32, u8),
    mss: usize,
) -> Setup {
    Setup {
        connection_management,
        delivery: DeliveryView::fresh(
            local_isn.advanced(1),
            SeqNumber { value: 0 },
            ack_delay_timeout,
            local_window.0,
            local_window.1,
        ),
        flow_control: FlowControlState {
            send_window: 0,
            send_window_last_update_seq: SeqNumber { value: 0 },
            send_window_last_update_ack: local_isn.advanced(1),
            send_window_scale_shift_bits: 0,
            mss,
        },
    }
}

impl PassiveOpenConfig {
    /// The connection once the handshake is complete.
    pub open spec fn established(self) -> Setup {
        established_setup(
            ConnectionManagementState {
                local: self.local,
                remote: self.remote,
                tcp_config: self.tcp_config,
                socket_options: self.socket_options,
                state: State::Established,
            },
            self.local_isn,
            self.remote_isn,
            self.ack_delay_timeout,
            (self.local_window_size_bytes, self.local_window_scale_bits),
            (self.remote_window_size_bytes, self.remote_window_scale_bits),
            self.mss,
        )
    }

    /// The connection before anything has arrived from the peer.
    pub open spec fn listening(self) -> Setup {
        unanswered_setup(
            ConnectionManagementState {
                local: self.local,
                remote: unspecified_addr(),
                tcp_config: self.tcp_config,
                socket_options: self.socket_options,
                state: State::Listen,
            },
            self.local_isn,
            self.ack_delay_timeout,
            (self.local_window_size_bytes, self.local_window_scale_bits),
            self.mss,
        )
    }
}

impl ActiveOpenConfig {
    /// The connection once the handshake is complete.
    pub open spec fn established(self) -> Setup {
        established_setup(
            ConnectionManagementState {
                local: self.local,
                remote: self.remote,
                tcp_config: self.tcp_config,
                socket_options: self.socket_options,
                state: State::Established,
            },
            self.local_isn,
            self.remote_isn,
            self.ack_delay_timeout,
            (self.local_window_size_bytes, self.local_window_scale_bits),
            (self.remote_window_size_bytes, self.remote_window_scale_bits),
            self.mss,
        )
    }
}

impl SynSentConfig {
    /// The connection before anything has arrived from the peer.
    pub open spec fn syn_sent(self) -> Setup {
        unanswered_setup(
            ConnectionManagementState {
                local: self.local,
                remote: self.remote,
                tcp_config: self.tcp_config,
                socket_options: self.socket_options,
                state: State::SynSent,
            },
            self.local_isn,
            self.ack_delay_timeout,
            (self.local_window_size_bytes, self.local_window_scale_bits),
            FALLBACK_MSS,
        )
    }
}

/// Builds the control block of a connection whose passive open is complete. Each component
/// initialises itself.
pub fn build_control_block_for_passive_open<
    C: CongestionControl,
    F: FnOnce(usize, SeqNumber, Option<Options>) -> C,
>(config: PassiveOpenConfig, cc_constructor: F) -> (cb: ControlBlock<C>)
    requires
        cc_constructor.requires((config.mss, config.local_isn.advanced(1), None::<Options>)),
    ensures
        setup_of(cb) == config.established(),
        cb.congestion_control.rto_calculator == RtoCalculator::initial(),
        cc_constructor.ensures(
            (config.mss, config.local_isn.advanced(1), None::<Options>),
            cb.congestion_control.cc_algorithm,
        ),
{
    // Both sides continue behind their SYN.
    let sender_seq_no: SeqNumber = config.local_isn.plus(1);
    let receiver_seq_no: SeqNumber = config.remote_isn.plus(1);
    let delivery: DeliveryState = DeliveryState::starting_at(
        sender_seq_no,
        receiver_seq_no,
        receiver_seq_no,
        config.ack_delay_timeout,
        config.local_window_size_bytes,
        config.local_window_scale_bits,
    );
    let flow_control: FlowControlState = FlowControlState::new(
        sender_seq_no,
        receiver_seq_no,
        config.remote_window_size_bytes,
        config.remote_window_scale_bits,
        config.mss,
    );
    let connection_management: ConnectionManagementState = ConnectionManagementState::new(
        config.local,
        config.remote,
        config.tcp_config,
        config.socket_options,
    );
    let cc_algorithm: C = cc_constructor(config.mss, sender_seq_no, None);
    ControlBlock::new(
        connection_management,
        delivery,
        flow_control,
        CongestionControlState::new(cc_algorithm),
    )
}

/// Builds the control block of a connection whose active open is complete. Each component
/// initialises itself.
pub fn build_control_block_for_active_open<
    C: CongestionControl,
    F: FnOnce(usize, SeqNumber, Option<Options>) -> C,
>(config: ActiveOpenConfig, cc_constructor: F) -> (cb: ControlBlock<C>)
    requires
        cc_constructor.requires((config.mss, config.local_isn.advanced(1), None::<Options>)),
    ensures
        setup_of(cb) == config.established(),
        cb.congestion_control.rto_calculator == RtoCalculator::initial(),
        cc_constructor.ensures(
            (config.mss, config.local_isn.advanced(1), None::<Options>),
            cb.congestion_control.cc_algorithm,
        ),
{
    // Both sides continue behind their SYN.
    let sender_seq_no: SeqNumber = config.local_isn.plus(1);
    let receiver_seq_no: SeqNumber = config.remote_isn.plus(1);
    let delivery: DeliveryState = DeliveryState::starting_at(
        sender_seq_no,
        receiver_seq_no,
        receiver_seq_no,
        config.ack_delay_timeout,
        config.local_window_size_bytes,
        config.local_window_scale_bits,
    );
    let flow_control: FlowControlState = FlowControlState::new(
        sender_seq_no,
        receiver_seq_no,
        config.remote_window_size_bytes,
        config.remote_window_scale_bits,
        config.mss,
    );
    let connection_management: ConnectionManagementState = ConnectionManagementState::new(
        config.local,
        config.remote,
        config.tcp_config,
        config.socket_options,
    );
    let cc_algorithm: C = cc_constructor(config.mss, sender_seq_no, None);
    ControlBlock::new(
        connection_management,
        delivery,
        flow_control,
        CongestionControlState::new(cc_algorithm),
    )
}

/// Creates a control block in state LISTEN, at the start of a passive open. What the SYN of
/// the peer tells, [`dispatch_syn_in_listen`] fills in.
pub fn create_control_block_for_listen<
    C: CongestionControl,
    F: FnOnce(usize, SeqNumber, Option<Options>) -> C,
>(config: PassiveOpenConfig, cc_constructor: F) -> (cb: ControlBlock<C>)
    requires
        cc_constructor.requires((config.mss, config.local_isn.advanced(1), None::<Options>)),
    ensures
        setup_of(cb) == config.listening(),
        cb.congestion_control.rto_calculator == RtoCalculator::initial(),
        cc_constructor.ensures(
            (config.mss, config.local_isn.advanced(1), None::<Options>),
            cb.congestion_control.cc_algorithm,
        ),
{
    let sender_seq_no: SeqNumber = config.local_isn.plus(1);
    let unknown: SeqNumber = SeqNumber::new(0);
    let delivery: DeliveryState = DeliveryState::starting_at(
        sender_seq_no,
        unknown,
        unknown,
        config.ack_delay_timeout,
        config.local_window_size_bytes,
        config.local_window_scale_bits,
    );
    let flow_control: FlowControlState = FlowControlState::new(
        sender_seq_no,
        unknown,
        0,
        0,
        config.mss,
    );
    let connection_management: ConnectionManagementState = ConnectionManagementState::new_listen(
        config.local,
        config.tcp_config,
        config.socket_options,
    );
    let cc_algorithm: C = cc_constructor(config.mss, sender_seq_no, None);
    ControlBlock::new(
        connection_management,
        delivery,
        flow_control,
        CongestionControlState::new(cc_algorithm),
    )
}

/// Creates a control block in state SYN_SENT, at the start of an active open. What the
/// SYN+ACK of the peer tells, [`dispatch_synack_in_synsent`] fills in.
pub fn create_control_block_for_syn_sent<
    C: CongestionControl,
    F: FnOnce(usize, SeqNumber, Option<Options>) -> C,
>(config: SynSentConfig, cc_constructor: F) -> (cb: ControlBlock<C>)
    requires
        cc_constructor.requires((FALLBACK_MSS, config.local_isn.advanced(1), None::<Options>)),
    ensures
        setup_of(cb) == config.syn_sent(),
        cb.congestion_control.rto_calculator == RtoCalculator::initial(),
        cc_constructor.ensures(
            (FALLBACK_MSS, config.local_isn.advanced(1), None::<Options>),
            cb.congestion_control.cc_algorithm,
        ),
{
    let sender_seq_no: SeqNumber = config.local_isn.plus(1);
    let unknown: SeqNumber = SeqNumber::new(0);
    let delivery: DeliveryState = DeliveryState::starting_at(
        sender_seq_no,
        unknown,
        unknown,
        config.ack_delay_timeout,
        config.local_window_size_bytes,
        config.local_window_scale_bits,
    );
    let flow_control: FlowControlState = FlowControlState::new(
        sender_seq_no,
        unknown,
        0,
        0,
        FALLBACK_MSS,
    );
    let connection_management: ConnectionManagementState = ConnectionManagementState::new_syn_sent(
        config.local,
        config.remote,
        config.tcp_config,
        config.socket_options,
    );
    let cc_algorithm: C = cc_constructor(FALLBACK_MSS, sender_seq_no, None);
    ControlBlock::new(
        connection_management,
        delivery,
        flow_control,
        CongestionControlState::new(cc_algorithm),
    )
}

} // verus!

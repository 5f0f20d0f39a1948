//! Active open: the client side of the TCP handshake.
//!
//! [`ActiveOpenSocket::connect`] starts a [`Handshake`]. Its [`Handshake::step`] turns an event
//! into the action that follows, and the caller performs the action and comes back with the
//! next event.
use crate::addr::{Ipv4Addr, SocketAddrV4};
use crate::config::{TcpConfig, TcpSocketOptions, FALLBACK_MSS, MAX_WINDOW_SCALE};
use crate::congestion_control::{CongestionControl, Options};
use crate::connection_management_state::ConnectionManagementState;
use crate::ctrlblk::{ControlBlock, State};
use crate::fail::{Fail, FailKind};
use crate::flow_control_state::{scale_window, scaled_window, FlowControlState};
use crate::header::{HeaderView, OutgoingSegment, SegmentView, TcpHeader, TcpOptions2};
use crate::rto::RtoCalculator;
use crate::seq_number::SeqNumber;
use crate::tcp_events::{
    create_control_block_for_syn_sent, dispatch_synack_in_synsent, setup_of, Setup, SynSentConfig,
};
use crate::time::Duration;
use std::collections::VecDeque;
use vstd::prelude::*;

verus! {

/// The state of a connecting socket.
#[derive(Clone, Copy, Debug, PartialEq, Eq, Structural)]
pub enum OpenState {
    /// The handshake is going on.
    Connecting,
    /// The application has closed the socket.
    Closed,
}

/// A socket that is connecting to a peer.
pub struct ActiveOpenSocket {
    pub local_isn: SeqNumber,
    pub local: SocketAddrV4,
    pub remote: SocketAddrV4,
    pub tcp_config: TcpConfig,
    pub socket_options: TcpSocketOptions,
    /// Segments that have arrived and wait to be processed, oldest first.
    pub recv_queue: VecDeque<(Ipv4Addr, TcpHeader, Vec<u8>)>,
    pub state: OpenState,
}

/// The contents of an [`ActiveOpenSocket`].
#[verifier::ext_equal]
pub struct ActiveOpenView {
    pub local_isn: SeqNumber,
    pub local: SocketAddrV4,
    pub remote: SocketAddrV4,
    pub tcp_config: TcpConfig,
    pub socket_options: TcpSocketOptions,
    pub received: Seq<(Ipv4Addr, HeaderView, Seq<u8>)>,
    pub state: OpenState,
}

/// The contents of a segment that has arrived.
pub open spec fn arrived(segment: (Ipv4Addr, TcpHeader, Vec<u8>)) -> (
    Ipv4Addr,
    HeaderView,
    Seq<u8>,
) {
    (segment.0, segment.1@, segment.2@)
}

impl View for ActiveOpenSocket {
    type V = ActiveOpenView;

    open spec fn view(&self) -> ActiveOpenView {
        ActiveOpenView {
            local_isn: self.local_isn,
            local: self.local,
            remote: self.remote,
            tcp_config: self.tcp_config,
            socket_options: self.socket_options,
            received: self.recv_queue@.map_values(
                |segment: (Ipv4Addr, TcpHeader, Vec<u8>)| arrived(segment),
            ),
            state: self.state,
        }
    }
}

/// The window scale that the last window scale option of a header asks for, if it has one.
pub open spec fn last_window_scale(options: Seq<TcpOptions2>) -> Option<u8>
    decreases options.len(),
{
    if options.len() == 0 {
        None
    } else {
        match options.last() {
            TcpOptions2::WindowScale(scale) => Some(scale),
            _ => last_window_scale(options.drop_last()),
        }
    }
}

/// The segment size that the last such option of a header asks for, or the fallback.
pub open spec fn last_mss(options: Seq<TcpOptions2>) -> usize
    decreases options.len(),
{
    if options.len() == 0 {
        FALLBACK_MSS
    } else {
        match options.last() {
            TcpOptions2::MaximumSegmentSize(mss) => mss as usize,
            _ => last_mss(options.drop_last()),
        }
    }
}

/// The window scale to use with a peer: what it asks for, up to the maximum, and none if it
/// asks for none.
pub open spec fn usable_window_scale(scale: Option<u8>) -> u8 {
    match scale {
        Some(scale) => if scale <= MAX_WINDOW_SCALE {
            scale
        } else {
            MAX_WINDOW_SCALE
        },
        None => 0,
    }
}

/// What the answer to a SYN means.
#[derive(Clone, Copy, Debug, PartialEq, Eq, Structural)]
pub enum Answer {
    /// It does not answer our SYN: try again.
    Unrelated,
    /// The peer refuses the connection.
    Refused,
    /// It is a SYN+ACK.
    Accepted,
}

/// What the answer to a SYN with the initial sequence number `local_isn` means. Whatever does
/// not acknowledge the SYN is unrelated, even if it resets the connection.
pub open spec fn answer_to_syn(header: HeaderView, local_isn: SeqNumber) -> Answer {
    if !(header.ack && header.ack_num == local_isn.advanced(1)) {
        Answer::Unrelated
    } else if header.rst {
        Answer::Refused
    } else if !header.syn {
        Answer::Unrelated
    } else {
        Answer::Accepted
    }
}

/// Something that happens during a handshake.
pub enum ConnectEvent {
    /// The handshake starts.
    Started,
    /// The network layer has taken the SYN, or failed to.
    SynTransmitted { sent: bool },
    /// The state of the socket has changed, or could not be watched.
    StateChanged { state: Option<OpenState> },
    /// A segment has arrived.
    Received { header: TcpHeader },
    /// Nothing has arrived in time.
    TimedOut,
}

/// What is to be done next in a handshake.
#[derive(Clone, Debug, PartialEq, Eq)]
pub enum ConnectAction {
    /// Transmit the SYN, and report whether that succeeded.
    SendSyn { segment: OutgoingSegment },
    /// Wait until [`ActiveOpenSocket::next_reply`] has something to report, and report it.
    /// Report that nothing has arrived if that takes longer than the timeout.
    AwaitReply { timeout: Duration },
    /// Transmit the ACK. With that the connection is established.
    SendAck { segment: OutgoingSegment },
    /// Give up.
    GiveUp { fail: Fail },
}

/// The contents of a [`ConnectAction`].
pub enum ActionView {
    SendSyn { segment: SegmentView },
    AwaitReply { timeout: Duration },
    SendAck { segment: SegmentView },
    GiveUp { kind: FailKind, cause: Seq<char> },
}

impl View for ConnectAction {
    type V = ActionView;

    open spec fn view(&self) -> ActionView {
        match *self {
            ConnectAction::SendSyn { segment } => ActionView::SendSyn { segment: segment@ },
            ConnectAction::AwaitReply { timeout } => ActionView::AwaitReply { timeout },
            ConnectAction::SendAck { segment } => ActionView::SendAck { segment: segment@ },
            ConnectAction::GiveUp { fail } => ActionView::GiveUp {
                kind: fail.kind,
                cause: fail.cause@,
            },
        }
    }
}

/// A handshake that is going on.
pub struct Handshake<C: CongestionControl> {
    pub local_isn: SeqNumber,
    pub local: SocketAddrV4,
    pub remote: SocketAddrV4,
    pub tcp_config: TcpConfig,
    /// How many more SYNs may be sent.
    pub attempts_left: usize,
    /// The connection that is being set up.
    pub control_block: ControlBlock<C>,
}

/// The contents of a [`Handshake`] but for congestion control, which takes no part in it.
#[verifier::ext_equal]
pub struct HandshakeView {
    pub local_isn: SeqNumber,
    pub local: SocketAddrV4,
    pub remote: SocketAddrV4,
    pub tcp_config: TcpConfig,
    pub attempts_left: usize,
    pub setup: Setup,
}

impl<C: CongestionControl> View for Handshake<C> {
    type V = HandshakeView;

    open spec fn view(&self) -> HandshakeView {
        HandshakeView {
            local_isn: self.local_isn,
            local: self.local,
            remote: self.remote,
            tcp_config: self.tcp_config,
            attempts_left: self.attempts_left,
            setup: setup_of(self.control_block),
        }
    }
}

impl HandshakeView {
    /// A segment of the handshake.
    pub open spec fn handshake_segment(self, header: HeaderView) -> SegmentView {
        SegmentView {
            source: self.local.ip,
            destination: self.remote.ip,
            checksum_offload: self.tcp_config.rx_checksum_offload,
            header,
            payload: Seq::empty(),
        }
    }

    /// The SYN. It advertises our segment size, of which the option holds the low 16 bits, and
    /// our window scale.
    pub open spec fn syn(self) -> SegmentView {
        self.handshake_segment(
            HeaderView {
                syn: true,
                seq_num: self.local_isn,
                window_size: self.tcp_config.receive_window_size,
                options: seq![
                    TcpOptions2::MaximumSegmentSize(
                        (self.tcp_config.advertised_mss as int % 0x1_0000) as u16,
                    ),
                    TcpOptions2::WindowScale(self.tcp_config.window_scale),
                ],
                ..HeaderView::blank(self.local.port, self.remote.port)
            },
        )
    }

    /// The ACK that answers a SYN+ACK.
    pub open spec fn final_ack(self, synack: HeaderView) -> SegmentView {
        self.handshake_segment(
            HeaderView {
                ack: true,
                ack_num: synack.seq_num.advanced(1),
                window_size: self.tcp_config.receive_window_size,
                seq_num: self.local_isn.advanced(1),
                ..HeaderView::blank(self.local.port, self.remote.port)
            },
        )
    }

    /// The connection after a SYN+ACK.
    pub open spec fn connected(self, synack: HeaderView) -> Setup {
        Setup {
            connection_management: ConnectionManagementState {
                state: State::Established,
                ..self.setup.connection_management
            },
            delivery: self.setup.delivery.synchronized(synack.seq_num),
            flow_control: FlowControlState::negotiated(
                synack.window_size,
                usable_window_scale(last_window_scale(synack.options)),
                last_mss(synack.options),
                synack.seq_num.advanced(1),
                synack.ack_num,
            ),
        }
    }

    /// The next attempt: another SYN, or the end if no attempt is left.
    pub open spec fn next_attempt(self) -> (HandshakeView, ActionView) {
        if self.attempts_left == 0 {
            (
                self,
                ActionView::GiveUp {
                    kind: FailKind::ConnectionRefused,
                    cause: "connection handshake timed out"@,
                },
            )
        } else {
            (
                HandshakeView { attempts_left: (self.attempts_left - 1) as usize, ..self },
                ActionView::SendSyn { segment: self.syn() },
            )
        }
    }

    /// What a segment leads to.
    pub open spec fn after_segment(self, header: HeaderView) -> (HandshakeView, ActionView) {
        match answer_to_syn(header, self.local_isn) {
            Answer::Unrelated => self.next_attempt(),
            Answer::Refused => (
                self,
                ActionView::GiveUp {
                    kind: FailKind::ConnectionRefused,
                    cause: "connection refused"@,
                },
            ),
            Answer::Accepted => (
                HandshakeView { setup: self.connected(header), ..self },
                ActionView::SendAck { segment: self.final_ack(header) },
            ),
        }
    }

    /// What an event leads to.
    pub open spec fn after(self, event: ConnectEvent) -> (HandshakeView, ActionView) {
        match event {
            ConnectEvent::Started => self.next_attempt(),
            ConnectEvent::SynTransmitted { sent } => if sent {
                (self, ActionView::AwaitReply { timeout: self.tcp_config.handshake_timeout })
            } else {
                self.next_attempt()
            },
            ConnectEvent::StateChanged { state } => if state == Some(OpenState::Closed) {
                (
                    self,
                    ActionView::GiveUp {
                        kind: FailKind::ConnectionAborted,
                        cause: "Closing socket while connecting"@,
                    },
                )
            } else {
                self.next_attempt()
            },
            ConnectEvent::Received { header } => self.after_segment(header@),
            ConnectEvent::TimedOut => self.next_attempt(),
        }
    }
}

impl ActiveOpenView {
    /// Whether `event` is what the handshake is to be told when it waits for an answer, and
    /// `later` the socket afterwards, where the socket was in state `watched` when the wait
    /// began. A change of the state since that moment comes before any segment, a segment before
    /// those that arrived after it. Nothing is to be told while neither is there.
    pub open spec fn replies(
        self,
        watched: OpenState,
        later: ActiveOpenView,
        event: Option<ConnectEvent>,
    ) -> bool {
        if self.state != watched {
            &&& event == Some(ConnectEvent::StateChanged { state: Some(self.state) })
            &&& later == self
        } else if self.received.len() > 0 {
            &&& event is Some
            &&& event->0 is Received
            &&& event->0->header@ == self.received[0].1
            &&& later == (ActiveOpenView { received: self.received.drop_first(), ..self })
        } else {
            &&& event is None
            &&& later == self
        }
    }

    /// What the handshake starts from. Our window is the configured one, scaled.
    pub open spec fn syn_sent_config(self) -> SynSentConfig {
        SynSentConfig {
            local: self.local,
            remote: self.remote,
            local_isn: self.local_isn,
            tcp_config: self.tcp_config,
            socket_options: self.socket_options,
            local_window_scale_bits: self.tcp_config.window_scale,
            local_window_size_bytes: scaled_window(
                self.tcp_config.receive_window_size,
                self.tcp_config.window_scale,
            ) as u32,
            ack_delay_timeout: self.tcp_config.ack_delay_timeout,
        }
    }
}

/// Reads the window scale and the segment size from the options of a SYN+ACK.
pub fn parse_synack_options(options: &Vec<TcpOptions2>) -> (parsed: (Option<u8>, usize))
    ensures
        parsed.0 == last_window_scale(options@),
        parsed.1 == last_mss(options@),
{
    let mut scale: Option<u8> = None;
    let mut mss: usize = FALLBACK_MSS;
    let mut i: usize = 0;
    while i < options.len()
        invariant
            i <= options.len(),
            scale == last_window_scale(options@.take(i as int)),
            mss == last_mss(options@.take(i as int)),
        decreases options.len() - i,
    {
        match options[i] {
            TcpOptions2::WindowScale(w) => {
                scale = Some(w);
            },
            TcpOptions2::MaximumSegmentSize(m) => {
                mss = m as usize;
            },
            _ => {},
        }
        i = i + 1;
        assert(options@.take(i as int).drop_last() =~= options@.take(i - 1));
    }
    assert(options@.take(i as int) =~= options@);
    (scale, mss)
}

/// Limits the window scale of a peer to what the protocol allows (RFC 1323, 2.3).
pub fn limit_window_scale(scale: Option<u8>) -> (usable: u8)
    ensures
        usable == usable_window_scale(scale),
        usable <= MAX_WINDOW_SCALE,
{
    match scale {
        Some(scale) => {
            if scale > MAX_WINDOW_SCALE {
                MAX_WINDOW_SCALE
            } else {
                scale
            }
        },
        None => 0,
    }
}

/// Tells what the answer to a SYN means.
pub fn classify_answer(header: &TcpHeader, local_isn: SeqNumber) -> (answer: Answer)
    ensures
        answer == answer_to_syn(header@, local_isn),
{
    if !(header.ack && header.ack_num == local_isn.plus(1)) {
        Answer::Unrelated
    } else if header.rst {
        Answer::Refused
    } else if !header.syn {
        Answer::Unrelated
    } else {
        Answer::Accepted
    }
}

impl ActiveOpenSocket {
    pub fn new(
        local_isn: SeqNumber,
        local: SocketAddrV4,
        remote: SocketAddrV4,
        tcp_config: TcpConfig,
        default_socket_options: TcpSocketOptions,
    ) -> (result: Result<Self, Fail>)
        ensures
            result is Ok,
            result->Ok_0@ == (ActiveOpenView {
                local_isn,
                local,
                remote,
                tcp_config,
                socket_options: default_socket_options,
                received: Seq::empty(),
                state: OpenState::Connecting,
            }),
    {
        let socket: ActiveOpenSocket = ActiveOpenSocket {
            local_isn,
            local,
            remote,
            tcp_config,
            socket_options: default_socket_options,
            recv_queue: VecDeque::new(),
            state: OpenState::Connecting,
        };
        assert(socket@.received =~= Seq::empty());
        Ok(socket)
    }

    /// Starts the handshake, with a control block in state SYN_SENT.
    pub fn connect<C: CongestionControl, F: FnOnce(usize, SeqNumber, Option<Options>) -> C>(
        &self,
        cc_constructor: F,
    ) -> (handshake: Handshake<C>)
        requires
            self@.tcp_config.wf(),
            cc_constructor.requires((FALLBACK_MSS, self@.local_isn.advanced(1), None::<Options>)),
        ensures
            handshake@ == (HandshakeView {
                local_isn: self@.local_isn,
                local: self@.local,
                remote: self@.remote,
                tcp_config: self@.tcp_config,
                attempts_left: self@.tcp_config.handshake_retries,
                setup: self@.syn_sent_config().syn_sent(),
            }),
            handshake.control_block.congestion_control.rto_calculator == RtoCalculator::initial(),
            cc_constructor.ensures(
                (FALLBACK_MSS, self@.local_isn.advanced(1), None::<Options>),
                handshake.control_block.congestion_control.cc_algorithm,
            ),
    {
        let local_window_scale_bits: u8 = self.tcp_config.window_scale;
        let local_window_size_bytes: u32 = scale_window(
            self.tcp_config.receive_window_size,
            local_window_scale_bits,
        );
        let config: SynSentConfig = SynSentConfig {
            local: self.local,
            remote: self.remote,
            local_isn: self.local_isn,
            tcp_config: self.tcp_config,
            socket_options: self.socket_options,
            local_window_scale_bits,
            local_window_size_bytes,
            ack_delay_timeout: self.tcp_config.ack_delay_timeout,
        };
        let control_block: ControlBlock<C> = create_control_block_for_syn_sent(
            config,
            cc_constructor,
        );
        Handshake {
            local_isn: self.local_isn,
            local: self.local,
            remote: self.remote,
            tcp_config: self.tcp_config,
            attempts_left: self.tcp_config.handshake_retries,
            control_block,
        }
    }

    /// The application closes the socket.
    pub fn close(&mut self)
        ensures
            final(self)@ == (ActiveOpenView { state: OpenState::Closed, ..old(self)@ }),
    {
        self.state = OpenState::Closed;
    }

    /// The addresses of the two ends of this connection.
    pub fn endpoints(&self) -> (ends: (SocketAddrV4, SocketAddrV4))
        ensures
            ends.0 == self@.local,
            ends.1 == self@.remote,
    {
        (self.local, self.remote)
    }

    /// Queues a segment that has arrived.
    pub fn receive(&mut self, ipv4_addr: Ipv4Addr, tcp_hdr: TcpHeader, buf: Vec<u8>)
        ensures
            final(self)@ == (ActiveOpenView {
                received: old(self)@.received.push((ipv4_addr, tcp_hdr@, buf@)),
                ..old(self)@
            }),
    {
        self.recv_queue.push_back((ipv4_addr, tcp_hdr, buf));
        assert(self@.received =~= old(self)@.received.push((ipv4_addr, tcp_hdr@, buf@)));
    }

    /// Takes the oldest segment out of the queue.
    pub fn pop_received(&mut self) -> (segment: Option<(Ipv4Addr, TcpHeader, Vec<u8>)>)
        ensures
            match segment {
                Some(first) => {
                    &&& old(self)@.received.len() > 0
                    &&& arrived(first) == old(self)@.received[0]
                    &&& final(self)@ == (ActiveOpenView {
                        received: old(self)@.received.drop_first(),
                        ..old(self)@
                    })
                },
                None => {
                    &&& old(self)@.received.len() == 0
                    &&& final(self)@ == old(self)@
                },
            },
    {
        let segment: Option<(Ipv4Addr, TcpHeader, Vec<u8>)> = self.recv_queue.pop_front();
        proof {
            if segment is Some {
                assert(self@.received =~= old(self)@.received.drop_first());
            } else {
                assert(self@.received =~= old(self)@.received);
            }
        }
        segment
    }

    /// What has come while the handshake waits for an answer, if anything has: a change of the
    /// socket's state from `watched`, the state in which the wait began, or else the oldest
    /// segment, which is taken out of the queue. A close that came before the wait is no change.
    pub fn next_reply(&mut self, watched: OpenState) -> (event: Option<ConnectEvent>)
        ensures
            old(self)@.replies(watched, final(self)@, event),
    {
        if self.state != watched {
            return Some(ConnectEvent::StateChanged { state: Some(self.state) });
        }
        match self.pop_received() {
            Some((_, header, _)) => Some(ConnectEvent::Received { header }),
            None => None,
        }
    }
}

impl<C: CongestionControl> Handshake<C> {
    /// Makes up a segment of the handshake.
    fn make_segment(&self, header: TcpHeader) -> (segment: OutgoingSegment)
        ensures
            segment@ == self@.handshake_segment(header@),
    {
        OutgoingSegment {
            source: self.local.ip,
            destination: self.remote.ip,
            checksum_offload: self.tcp_config.rx_checksum_offload,
            header,
            payload: Vec::new(),
        }
    }

    /// Begins another attempt, if one is left.
    fn next_attempt(&mut self) -> (action: ConnectAction)
        ensures
            (final(self)@, action@) == old(self)@.next_attempt(),
            final(self).control_block == old(self).control_block,
    {
        if self.attempts_left == 0 {
            return ConnectAction::GiveUp {
                fail: Fail::new(FailKind::ConnectionRefused, "connection handshake timed out"),
            };
        }
        self.attempts_left = self.attempts_left - 1;
        let mut header: TcpHeader = TcpHeader::new(self.local.port, self.remote.port);
        header.syn = true;
        header.seq_num = self.local_isn;
        header.window_size = self.tcp_config.receive_window_size;
        let mss: u16 = (self.tcp_config.advertised_mss % 0x1_0000) as u16;
        header.push_option(TcpOptions2::MaximumSegmentSize(mss));
        header.push_option(TcpOptions2::WindowScale(self.tcp_config.window_scale));
        assert(header@.options =~= old(self)@.syn().header.options);
        ConnectAction::SendSyn { segment: self.make_segment(header) }
    }

    /// Processes the answer to a SYN.
    fn on_segment(&mut self, header: &TcpHeader) -> (action: ConnectAction)
        requires
            old(self)@.setup.connection_management.state == State::SynSent,
        ensures
            (final(self)@, action@) == old(self)@.after_segment(header@),
            final(self).control_block.congestion_control
                == old(self).control_block.congestion_control,
    {
        match classify_answer(header, self.local_isn) {
            Answer::Unrelated => {
                return self.next_attempt();
            },
            Answer::Refused => {
                return ConnectAction::GiveUp {
                    fail: Fail::new(FailKind::ConnectionRefused, "connection refused"),
                };
            },
            Answer::Accepted => {},
        }
        let (remote_window_scale, mss) = parse_synack_options(&header.options);
        let remote_window_scale_bits: u8 = limit_window_scale(remote_window_scale);
        let dispatched: Result<(), &'static str> = dispatch_synack_in_synsent(
            &mut self.control_block.connection_management,
            &mut self.control_block.delivery,
            &mut self.control_block.flow_control,
            header,
            self.local_isn,
            remote_window_scale_bits,
            mss,
        );
        match dispatched {
            Ok(_) => {},
            Err(cause) => {
                return ConnectAction::GiveUp { fail: Fail::new(FailKind::BadMessage, cause) };
            },
        }
        let mut ack_hdr: TcpHeader = TcpHeader::new(self.local.port, self.remote.port);
        ack_hdr.ack = true;
        ack_hdr.ack_num = header.seq_num.plus(1);
        ack_hdr.window_size = self.tcp_config.receive_window_size;
        ack_hdr.seq_num = self.local_isn.plus(1);
        ConnectAction::SendAck { segment: self.make_segment(ack_hdr) }
    }

    /// Processes an event and tells what is to be done next. A segment can be processed as
    /// long as the connection is in state SYN_SENT.
    pub fn step(&mut self, event: ConnectEvent) -> (action: ConnectAction)
        requires
            event is Received ==> old(self)@.setup.connection_management.state == State::SynSent,
        ensures
            (final(self)@, action@) == old(self)@.after(event),
            final(self).control_block.congestion_control
                == old(self).control_block.congestion_control,
    {
        match event {
            ConnectEvent::Started => self.next_attempt(),
            ConnectEvent::SynTransmitted { sent } => {
                if sent {
                    ConnectAction::AwaitReply { timeout: self.tcp_config.handshake_timeout }
                } else {
                    self.next_attempt()
                }
            },
            ConnectEvent::StateChanged { state } => {
                match state {
                    Some(OpenState::Closed) => ConnectAction::GiveUp {
                        fail: Fail::new(
                            FailKind::ConnectionAborted,
                            "Closing socket while connecting",
                        ),
                    },
                    _ => self.next_attempt(),
                }
            },
            ConnectEvent::Received { header } => self.on_segment(&header),
            ConnectEvent::TimedOut => self.next_attempt(),
        }
    }
}

} // verus!

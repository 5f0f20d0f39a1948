//! Laws of connection setup.
use crate::active_open::{
    answer_to_syn, last_mss, last_window_scale, usable_window_scale, ActionView, ActiveOpenView,
    Answer, ConnectEvent, HandshakeView, OpenState,
};
use crate::addr::SocketAddrV4;
use crate::config::MAX_WINDOW_SCALE;
use crate::congestion_control::CongestionControl;
use crate::connection_management_state::ConnectionManagementState;
use crate::ctrlblk::{ControlBlock, State};
use crate::delivery_state::DeliveryView;
use crate::fail::FailKind;
use crate::flow_control_state::{
    max_window, scaled_window, scaled_window_is_bounded, FlowControlState,
};
use crate::header::{HeaderView, TcpOptions2};
use crate::laws::sequence::advancing_undoes_difference;
use crate::rto::RtoCalculator;
use crate::sender::SenderView;
use crate::seq_number::SeqNumber;
use crate::tcp_events::{setup_of, ActiveOpenConfig, PassiveOpenConfig, Setup};
use vstd::arithmetic::power2::pow2;
use vstd::prelude::*;

verus! {

/// The handshake that a socket starts.
pub open spec fn started(socket: ActiveOpenView) -> HandshakeView {
    HandshakeView {
        local_isn: socket.local_isn,
        local: socket.local,
        remote: socket.remote,
        tcp_config: socket.tcp_config,
        attempts_left: socket.tcp_config.handshake_retries,
        setup: socket.syn_sent_config().syn_sent(),
    }
}

/// What is known of a connection once its SYN+ACK has arrived.
pub open spec fn config_after_synack(
    socket: ActiveOpenView,
    synack: HeaderView,
) -> ActiveOpenConfig {
    let remote_scale = usable_window_scale(last_window_scale(synack.options));
    ActiveOpenConfig {
        local: socket.local,
        remote: socket.remote,
        local_isn: socket.local_isn,
        remote_isn: synack.seq_num,
        tcp_config: socket.tcp_config,
        socket_options: socket.socket_options,
        mss: last_mss(synack.options),
        local_window_scale_bits: socket.tcp_config.window_scale,
        remote_window_scale_bits: remote_scale,
        local_window_size_bytes: scaled_window(
            socket.tcp_config.receive_window_size,
            socket.tcp_config.window_scale,
        ) as u32,
        remote_window_size_bytes: scaled_window(synack.window_size, remote_scale) as u32,
        ack_delay_timeout: socket.tcp_config.ack_delay_timeout,
    }
}

/// An active open that goes through the handshake ends in the same connection as one that is
/// built once the handshake is known to be complete.
pub proof fn active_handshake_agrees_with_builder(socket: ActiveOpenView, synack: HeaderView)
    requires
        answer_to_syn(synack, socket.local_isn) == Answer::Accepted,
    ensures
        started(socket).connected(synack) == config_after_synack(socket, synack).established(),
{
    assert(started(socket).connected(synack).delivery =~= config_after_synack(
        socket,
        synack,
    ).established().delivery);
}

/// The connection after a SYN has been dispatched in state LISTEN.
pub open spec fn after_syn(
    listening: Setup,
    syn: HeaderView,
    remote: SocketAddrV4,
    local_isn: SeqNumber,
    mss: usize,
    window_scale_bits: u8,
) -> Setup {
    Setup {
        connection_management: ConnectionManagementState {
            remote,
            state: State::SynReceived,
            ..listening.connection_management
        },
        delivery: listening.delivery.synchronized(syn.seq_num),
        flow_control: FlowControlState::negotiated(
            syn.window_size,
            window_scale_bits,
            mss,
            syn.seq_num.advanced(1),
            local_isn.advanced(1),
        ),
    }
}

/// The connection after the final ACK has been dispatched in state SYN_RECEIVED.
pub open spec fn after_final_ack(received: Setup) -> Setup {
    Setup {
        connection_management: ConnectionManagementState {
            state: State::Established,
            ..received.connection_management
        },
        ..received
    }
}

/// A passive open that goes through the handshake, from LISTEN through SYN_RECEIVED, ends in
/// the same connection as one that is built once the handshake is known to be complete.
pub proof fn passive_handshake_agrees_with_builder(config: PassiveOpenConfig, syn: HeaderView)
    requires
        syn.seq_num == config.remote_isn,
        config.remote_window_size_bytes == scaled_window(
            syn.window_size,
            config.remote_window_scale_bits,
        ),
    ensures
        after_final_ack(
            after_syn(
                config.listening(),
                syn,
                config.remote,
                config.local_isn,
                config.mss,
                config.remote_window_scale_bits,
            ),
        ) == config.established(),
{
    assert(config.listening().delivery.synchronized(syn.seq_num)
        =~= config.established().delivery);
}

/// Passive and active open end in the same connection if they know the same of it.
pub proof fn both_opens_agree(passive: PassiveOpenConfig, active: ActiveOpenConfig)
    requires
        active == (ActiveOpenConfig {
            local: passive.local,
            remote: passive.remote,
            local_isn: passive.local_isn,
            remote_isn: passive.remote_isn,
            tcp_config: passive.tcp_config,
            socket_options: passive.socket_options,
            mss: passive.mss,
            local_window_scale_bits: passive.local_window_scale_bits,
            remote_window_scale_bits: passive.remote_window_scale_bits,
            local_window_size_bytes: passive.local_window_size_bytes,
            remote_window_size_bytes: passive.remote_window_size_bytes,
            ack_delay_timeout: passive.ack_delay_timeout,
        }),
    ensures
        active.established() == passive.established(),
{
}

/// A new connection is well-formed, has nothing in flight and is established, if its window
/// scales and the peer's window are what the protocol allows.
pub proof fn new_connection_is_wf<C: CongestionControl>(
    cb: ControlBlock<C>,
    config: PassiveOpenConfig,
)
    requires
        setup_of(cb) == config.established(),
        cb.congestion_control.rto_calculator == RtoCalculator::initial(),
        config.local_window_scale_bits <= MAX_WINDOW_SCALE,
        config.remote_window_scale_bits <= MAX_WINDOW_SCALE,
        config.remote_window_size_bytes <= max_window(),
    ensures
        cb.wf(),
        cb.delivery@.sender.in_flight() == 0,
        cb.connection_management.state == State::Established,
{
}

/// A connection that an active open has set up is well-formed, has nothing in flight and is
/// established.
pub proof fn connected_is_wf<C: CongestionControl>(
    cb: ControlBlock<C>,
    socket: ActiveOpenView,
    synack: HeaderView,
)
    requires
        socket.tcp_config.wf(),
        setup_of(cb) == started(socket).connected(synack),
        cb.congestion_control.rto_calculator == RtoCalculator::initial(),
    ensures
        cb.wf(),
        cb.delivery@.sender.in_flight() == 0,
        cb.connection_management.state == State::Established,
{
    scaled_window_is_bounded(
        synack.window_size,
        usable_window_scale(last_window_scale(synack.options)),
    );
}

/// A handshake after a sequence of events, and how many SYNs it has sent on the way.
pub open spec fn run(handshake: HandshakeView, events: Seq<ConnectEvent>) -> (HandshakeView, nat)
    decreases events.len(),
{
    if events.len() == 0 {
        (handshake, 0)
    } else {
        let before = run(handshake, events.drop_last());
        let step = before.0.after(events.last());
        (step.0, before.1 + if step.1 is SendSyn {
            1nat
        } else {
            0nat
        })
    }
}

/// However a handshake goes, it never sends more SYNs than its configuration allows: each one
/// uses up an attempt.
pub proof fn attempts_are_bounded(handshake: HandshakeView, events: Seq<ConnectEvent>)
    ensures
        run(handshake, events).1 + run(handshake, events).0.attempts_left
            == handshake.attempts_left,
        run(handshake, events).1 <= handshake.attempts_left,
    decreases events.len(),
{
    if events.len() > 0 {
        attempts_are_bounded(handshake, events.drop_last());
    }
}

/// What identifies a handshake never changes, so every SYN is the same.
pub proof fn every_syn_is_the_same(handshake: HandshakeView, events: Seq<ConnectEvent>)
    ensures
        run(handshake, events).0.syn() == handshake.syn(),
        run(handshake, events).0.local_isn == handshake.local_isn,
    decreases events.len(),
{
    if events.len() > 0 {
        every_syn_is_the_same(handshake, events.drop_last());
    }
}

/// A connection is established by a SYN+ACK that acknowledges our SYN, and by nothing else. Such
/// a SYN+ACK always establishes it.
pub proof fn only_synack_establishes(handshake: HandshakeView, event: ConnectEvent)
    requires
        handshake.setup.connection_management.state == State::SynSent,
    ensures
        handshake.after(event).0.setup.connection_management.state == State::Established <==> (
        event is Received && {
            let header = event->header@;
            &&& header.ack
            &&& header.ack_num == handshake.local_isn.advanced(1)
            &&& header.syn
            &&& !header.rst
        }),
        handshake.after(event).0.setup.connection_management.state == State::Established <==>
            handshake.after(event).1 is SendAck,
        handshake.after(event).0.setup.connection_management.state != State::Established ==>
            handshake.after(event).0.setup == handshake.setup,
{
}

/// The reasons for which a handshake is given up: the application closes the socket, the peer
/// resets the connection in answer to our SYN, or no attempt is left.
pub proof fn reasons_to_give_up(handshake: HandshakeView, event: ConnectEvent)
    requires
        handshake.after(event).1 is GiveUp,
    ensures
        handshake.after(event).1->kind == FailKind::ConnectionAborted <==> (event
            matches ConnectEvent::StateChanged { state } && state == Some(OpenState::Closed)),
        handshake.after(event).1->kind == FailKind::ConnectionAborted
            || handshake.after(event).1->kind == FailKind::ConnectionRefused,
        handshake.after(event).1->kind == FailKind::ConnectionRefused ==> handshake.attempts_left
            == 0 || (event matches ConnectEvent::Received { header } && header@.rst && header@.ack
            && header@.ack_num == handshake.local_isn.advanced(1)),
{
}

/// The answer to our SYN acknowledges exactly one sequence number: the one that the SYN takes up.
pub proof fn synack_acknowledges_syn(synack: HeaderView, local_isn: SeqNumber)
    requires
        answer_to_syn(synack, local_isn) == Answer::Accepted,
    ensures
        synack.ack_num.steps_from(local_isn) == 1,
{
    advancing_undoes_difference(local_isn, synack.ack_num, 1);
}

/// A close wins: if a socket is closed while its handshake waits for an answer, the next thing
/// that the handshake is told ends it, whatever segments have arrived. No further SYN is sent,
/// no ACK is sent, and no segment is taken.
pub proof fn closing_wins(
    socket: ActiveOpenView,
    later: ActiveOpenView,
    event: Option<ConnectEvent>,
    handshake: HandshakeView,
)
    requires
        socket.state == OpenState::Closed,
        socket.replies(OpenState::Connecting, later, event),
    ensures
        event is Some,
        later == socket,
        handshake.after(event->0) == (
            handshake,
            ActionView::GiveUp {
                kind: FailKind::ConnectionAborted,
                cause: "Closing socket while connecting"@,
            },
        ),
{
}

/// As long as the state of a socket does not change while its handshake waits, segments are
/// processed one after the other, in the order of their arrival.
pub proof fn replies_come_in_order(
    socket: ActiveOpenView,
    later: ActiveOpenView,
    event: Option<ConnectEvent>,
    handshake: HandshakeView,
)
    requires
        socket.received.len() > 0,
        socket.replies(socket.state, later, event),
    ensures
        event is Some,
        handshake.after(event->0) == handshake.after_segment(socket.received[0].1),
        later.received == socket.received.drop_first(),
{
}

/// A refusal ends a handshake: whatever else a segment says, if it acknowledges our SYN and
/// resets the connection, the handshake fails at once. No further SYN is sent, however many
/// attempts are left.
pub proof fn refusal_ends_handshake(handshake: HandshakeView, event: ConnectEvent)
    requires
        event is Received,
        event->header@.ack,
        event->header@.ack_num.steps_from(handshake.local_isn) == 1,
        event->header@.rst,
    ensures
        handshake.after(event).0 == handshake,
        handshake.after(event).1 == (ActionView::GiveUp {
            kind: FailKind::ConnectionRefused,
            cause: "connection refused"@,
        }),
{
    advancing_undoes_difference(handshake.local_isn, event->header@.ack_num, 1);
}

/// Whatever does not answer our SYN has another SYN sent as long as attempts are left: a segment
/// that does not acknowledge the SYN, even if it resets the connection, a segment that is neither
/// a SYN nor a reset, a transmission that failed, a wait that ran out, and a change of the
/// socket's state that is no close. So does the start. Each uses up one attempt and leaves the
/// connection as it is. Without an attempt left the handshake fails.
pub proof fn everything_else_retries(handshake: HandshakeView, event: ConnectEvent)
    requires
        match event {
            ConnectEvent::Started => true,
            ConnectEvent::SynTransmitted { sent } => !sent,
            ConnectEvent::StateChanged { state } => state != Some(OpenState::Closed),
            ConnectEvent::Received { header } => {
                ||| !header@.ack
                ||| header@.ack_num.steps_from(handshake.local_isn) != 1
                ||| !header@.rst && !header@.syn
            },
            ConnectEvent::TimedOut => true,
        },
    ensures
        ({
            let (later, action) = handshake.after(event);
            &&& later.local_isn == handshake.local_isn
            &&& later.local == handshake.local
            &&& later.remote == handshake.remote
            &&& later.tcp_config == handshake.tcp_config
            &&& later.setup == handshake.setup
            &&& handshake.attempts_left > 0 ==> {
                &&& later.attempts_left == handshake.attempts_left - 1
                &&& action == (ActionView::SendSyn { segment: handshake.syn() })
            }
            &&& handshake.attempts_left == 0 ==> {
                &&& later.attempts_left == 0
                &&& action == (ActionView::GiveUp {
                    kind: FailKind::ConnectionRefused,
                    cause: "connection handshake timed out"@,
                })
            }
        }),
{
    if event is Received {
        advancing_undoes_difference(handshake.local_isn, event->header@.ack_num, 1);
    }
}

/// Once a SYN is on its way, the handshake waits for an answer for as long as it is configured
/// to.
pub proof fn sent_syn_awaits_reply(handshake: HandshakeView)
    ensures
        handshake.after(ConnectEvent::SynTransmitted { sent: true }) == (
            handshake,
            ActionView::AwaitReply { timeout: handshake.tcp_config.handshake_timeout },
        ),
{
}

/// A close that is reported ends a handshake, and nothing is changed by it.
pub proof fn close_ends_handshake(handshake: HandshakeView)
    ensures
        handshake.after(ConnectEvent::StateChanged { state: Some(OpenState::Closed) }) == (
            handshake,
            ActionView::GiveUp {
                kind: FailKind::ConnectionAborted,
                cause: "Closing socket while connecting"@,
            },
        ),
{
}

/// A SYN+ACK that acknowledges our SYN and resets nothing establishes the connection: what the
/// peer sends next follows its SYN, what we send next follows ours as before, the peer's window,
/// scale and segment size are those of its header and options, and the final ACK is sent. No
/// attempt is used up.
pub proof fn synack_establishes_connection(handshake: HandshakeView, event: ConnectEvent)
    requires
        event is Received,
        event->header@.ack,
        event->header@.ack_num.steps_from(handshake.local_isn) == 1,
        event->header@.syn,
        !event->header@.rst,
    ensures
        ({
            let synack = event->header@;
            let (later, action) = handshake.after(event);
            let before = handshake.setup;
            let setup = later.setup;
            let scale = setup.flow_control.send_window_scale_shift_bits;
            &&& action == (ActionView::SendAck { segment: handshake.final_ack(synack) })
            &&& later.attempts_left == handshake.attempts_left
            &&& later.local_isn == handshake.local_isn
            &&& later.local == handshake.local
            &&& later.remote == handshake.remote
            &&& later.tcp_config == handshake.tcp_config
            &&& setup.connection_management.state == State::Established
            &&& setup.connection_management.local == before.connection_management.local
            &&& setup.connection_management.remote == before.connection_management.remote
            &&& setup.connection_management.tcp_config == before.connection_management.tcp_config
            &&& setup.connection_management.socket_options
                == before.connection_management.socket_options
            &&& setup.delivery.sender == before.delivery.sender
            &&& setup.delivery.receiver.receive_next_seq_no.steps_from(synack.seq_num) == 1
            &&& setup.delivery.receiver.reader_next_seq_no.steps_from(synack.seq_num) == 1
            &&& setup.delivery.receiver.received == before.delivery.receiver.received
            &&& setup.delivery.receiver.out_of_order == before.delivery.receiver.out_of_order
            &&& setup.delivery.receiver.buffer_size_bytes
                == before.delivery.receiver.buffer_size_bytes
            &&& setup.delivery.receiver.window_scale_shift_bits
                == before.delivery.receiver.window_scale_shift_bits
            &&& setup.delivery.receiver.ack_delay_timeout
                == before.delivery.receiver.ack_delay_timeout
            &&& setup.delivery.receiver.ack_deadline == before.delivery.receiver.ack_deadline
            &&& scale <= 14
            &&& scale == usable_window_scale(last_window_scale(synack.options))
            &&& setup.flow_control.send_window == synack.window_size * pow2(scale as nat)
            &&& setup.flow_control.mss == last_mss(synack.options)
            &&& setup.flow_control.send_window_last_update_seq.steps_from(synack.seq_num) == 1
            &&& setup.flow_control.send_window_last_update_ack == synack.ack_num
        }),
{
    let synack = event->header@;
    advancing_undoes_difference(handshake.local_isn, synack.ack_num, 1);
    advancing_undoes_difference(synack.seq_num, synack.seq_num, 1);
    scaled_window_is_bounded(
        synack.window_size,
        usable_window_scale(last_window_scale(synack.options)),
    );
}

/// Of the options of a header the last of its sort counts. Others do not matter. Without any the
/// peer scales nothing and takes segments of 536 bytes.
pub proof fn last_option_counts(options: Seq<TcpOptions2>, option: TcpOptions2)
    ensures
        last_window_scale(Seq::empty()) is None,
        last_mss(Seq::empty()) == 536,
        ({
            let longer = options.push(option);
            match option {
                TcpOptions2::WindowScale(scale) => {
                    &&& last_window_scale(longer) == Some(scale)
                    &&& last_mss(longer) == last_mss(options)
                },
                TcpOptions2::MaximumSegmentSize(mss) => {
                    &&& last_mss(longer) == mss
                    &&& last_window_scale(longer) == last_window_scale(options)
                },
                _ => {
                    &&& last_mss(longer) == last_mss(options)
                    &&& last_window_scale(longer) == last_window_scale(options)
                },
            }
        }),
{
    assert(options.push(option).drop_last() =~= options);
    assert(options.push(option).last() == option);
}

/// A window scale of up to 14 is used as it is, a larger one as 14, and none as no scale.
pub proof fn scales_up_to_fourteen_are_used(scale: u8)
    ensures
        usable_window_scale(None) == 0,
        scale <= 14 ==> usable_window_scale(Some(scale)) == scale,
        scale > 14 ==> usable_window_scale(Some(scale)) == 14,
{
}

/// While the state of a socket stays as it was when the wait began and nothing has arrived, there
/// is nothing to report. A change of the state is reported as it is.
pub proof fn nothing_to_report(
    socket: ActiveOpenView,
    watched: OpenState,
    later: ActiveOpenView,
    event: Option<ConnectEvent>,
)
    requires
        socket.replies(watched, later, event),
    ensures
        event is None <==> socket.state == watched && socket.received.len() == 0,
        socket.state != watched ==> event == Some(
            ConnectEvent::StateChanged { state: Some(socket.state) },
        ) && later == socket,
        event is None ==> later == socket,
        later.state == socket.state,
        later.local_isn == socket.local_isn,
        later.local == socket.local,
        later.remote == socket.remote,
        later.tcp_config == socket.tcp_config,
        later.socket_options == socket.socket_options,
{
}

/// The handshake of a socket starts with all attempts that are configured, in state SYN_SENT,
/// with the number behind our SYN to send next, nothing known of the peer, and our window as it
/// is configured, scaled.
pub proof fn handshake_starts_unanswered(socket: ActiveOpenView)
    requires
        socket.tcp_config.window_scale <= 14,
    ensures
        ({
            let handshake = started(socket);
            let cm = handshake.setup.connection_management;
            let sender = handshake.setup.delivery.sender;
            let receiver = handshake.setup.delivery.receiver;
            let flow_control = handshake.setup.flow_control;
            &&& handshake.attempts_left == socket.tcp_config.handshake_retries
            &&& handshake.local_isn == socket.local_isn
            &&& cm.state == State::SynSent
            &&& cm.local == socket.local
            &&& cm.remote == socket.remote
            &&& cm.tcp_config == socket.tcp_config
            &&& cm.socket_options == socket.socket_options
            &&& is_new_sender(sender, socket.local_isn)
            &&& receiver.received.len() == 0
            &&& receiver.out_of_order.len() == 0
            &&& receiver.ack_deadline is None
            &&& receiver.ack_delay_timeout == socket.tcp_config.ack_delay_timeout
            &&& receiver.buffer_size_bytes == socket.tcp_config.receive_window_size * pow2(
                socket.tcp_config.window_scale as nat,
            )
            &&& receiver.window_scale_shift_bits == socket.tcp_config.window_scale
            &&& receiver.reader_next_seq_no == receiver.receive_next_seq_no
            &&& flow_control.send_window == 0
            &&& flow_control.send_window_scale_shift_bits == 0
            &&& flow_control.mss == 536
            &&& flow_control.send_window_last_update_ack.steps_from(socket.local_isn) == 1
        }),
{
    scaled_window_is_bounded(
        socket.tcp_config.receive_window_size,
        socket.tcp_config.window_scale,
    );
}

/// Whether a sender has sent nothing but a SYN with the given sequence number.
pub open spec fn is_new_sender(sender: SenderView, isn: SeqNumber) -> bool {
    &&& sender.send_unacked.steps_from(isn) == 1
    &&& sender.send_next_seq_no.steps_from(isn) == 1
    &&& sender.unacked.len() == 0
    &&& sender.unsent.len() == 0
    &&& sender.sender_fin_seq_no is None
    &&& sender.retransmit_deadline is None
}

/// A connection that is built once the handshake is complete holds exactly what is known of it,
/// and both sides go on right behind their SYN.
pub proof fn built_connection_holds_what_is_known(config: PassiveOpenConfig)
    ensures
        ({
            let setup = config.established();
            let cm = setup.connection_management;
            let receiver = setup.delivery.receiver;
            let flow_control = setup.flow_control;
            &&& cm.state == State::Established
            &&& cm.local == config.local
            &&& cm.remote == config.remote
            &&& cm.tcp_config == config.tcp_config
            &&& cm.socket_options == config.socket_options
            &&& is_new_sender(setup.delivery.sender, config.local_isn)
            &&& receiver.reader_next_seq_no.steps_from(config.remote_isn) == 1
            &&& receiver.receive_next_seq_no.steps_from(config.remote_isn) == 1
            &&& receiver.received.len() == 0
            &&& receiver.out_of_order.len() == 0
            &&& receiver.ack_delay_timeout == config.ack_delay_timeout
            &&& receiver.ack_deadline is None
            &&& receiver.buffer_size_bytes == config.local_window_size_bytes
            &&& receiver.window_scale_shift_bits == config.local_window_scale_bits
            &&& flow_control.send_window == config.remote_window_size_bytes
            &&& flow_control.send_window_scale_shift_bits == config.remote_window_scale_bits
            &&& flow_control.send_window_last_update_seq.steps_from(config.remote_isn) == 1
            &&& flow_control.send_window_last_update_ack.steps_from(config.local_isn) == 1
            &&& flow_control.mss == config.mss
        }),
{
}

/// A connection that listens knows nothing of its peer, not even its address, and grants what is
/// configured.
pub proof fn listening_connection_knows_no_peer(config: PassiveOpenConfig)
    ensures
        ({
            let setup = config.listening();
            let cm = setup.connection_management;
            let receiver = setup.delivery.receiver;
            &&& cm.state == State::Listen
            &&& cm.local == config.local
            &&& cm.remote.ip.bits == 0
            &&& cm.remote.port == 0
            &&& cm.tcp_config == config.tcp_config
            &&& cm.socket_options == config.socket_options
            &&& is_new_sender(setup.delivery.sender, config.local_isn)
            &&& receiver.received.len() == 0
            &&& receiver.out_of_order.len() == 0
            &&& receiver.ack_delay_timeout == config.ack_delay_timeout
            &&& receiver.ack_deadline is None
            &&& receiver.buffer_size_bytes == config.local_window_size_bytes
            &&& receiver.window_scale_shift_bits == config.local_window_scale_bits
            &&& receiver.reader_next_seq_no == receiver.receive_next_seq_no
            &&& setup.flow_control.send_window == 0
            &&& setup.flow_control.send_window_scale_shift_bits == 0
            &&& setup.flow_control.mss == config.mss
            &&& setup.flow_control.send_window_last_update_ack.steps_from(config.local_isn) == 1
        }),
{
}

/// The peer's SYN settles where its stream starts, and nothing else of delivery.
pub proof fn syn_settles_where_stream_starts(delivery: DeliveryView, remote_isn: SeqNumber)
    ensures
        ({
            let later = delivery.synchronized(remote_isn);
            &&& later.receiver.receive_next_seq_no.steps_from(remote_isn) == 1
            &&& later.receiver.reader_next_seq_no.steps_from(remote_isn) == 1
            &&& later.sender == delivery.sender
            &&& later.receiver.received == delivery.receiver.received
            &&& later.receiver.out_of_order == delivery.receiver.out_of_order
            &&& later.receiver.ack_delay_timeout == delivery.receiver.ack_delay_timeout
            &&& later.receiver.ack_deadline == delivery.receiver.ack_deadline
            &&& later.receiver.buffer_size_bytes == delivery.receiver.buffer_size_bytes
            &&& later.receiver.window_scale_shift_bits
                == delivery.receiver.window_scale_shift_bits
        }),
{
}

} // verus!

//! Connection management: the two endpoints of a connection and its state.
use crate::addr::{unspecified_addr, SocketAddrV4};
use crate::config::{TcpConfig, TcpSocketOptions};
use crate::ctrlblk::State;
use crate::delivery_state::DeliveryState;
use crate::header::TcpHeader;
use crate::sender::{SenderView, UnackedView};
use crate::seq_number::SeqNumber;
use vstd::prelude::*;

verus! {

/// What is left to acknowledge when the first `acked` sequence numbers of a queue are
/// acknowledged and a FIN is met on the way: at least one, the FIN itself. `None` if no FIN
/// is met.
pub open spec fn left_at_fin(queue: Seq<UnackedView>, acked: int) -> Option<int>
    decreases queue.len(),
{
    if queue.len() == 0 || acked <= 0 {
        None
    } else if queue[0].is_fin() {
        Some(acked)
    } else {
        left_at_fin(queue.drop_first(), acked - queue[0].span())
    }
}

/// Whether our FIN has been sent and not been acknowledged in this state.
pub open spec fn awaits_fin_ack(state: State) -> bool {
    state == State::FinWait1 || state == State::Closing || state == State::LastAck
}

/// The state after our FIN has been acknowledged.
pub open spec fn state_after_fin_acked(state: State) -> State {
    match state {
        State::FinWait1 => State::FinWait2,
        State::Closing => State::TimeWait,
        State::LastAck => State::Closed,
        other => other,
    }
}

/// The parameters and the state of a connection. All fields are public, since every part of
/// the stack reads them.
#[derive(Clone, Copy, Debug, PartialEq, Eq, Structural)]
pub struct ConnectionManagementState {
    pub local: SocketAddrV4,
    pub remote: SocketAddrV4,
    pub tcp_config: TcpConfig,
    pub socket_options: TcpSocketOptions,
    pub state: State,
}

impl ConnectionManagementState {
    /// Whether an acknowledgement reaches our FIN.
    pub open spec fn reaches_fin(sender: SenderView, ack_num: SeqNumber) -> bool {
        left_at_fin(sender.unacked, sender.newly_acked(ack_num)) is Some
    }

    /// An acknowledgement that reaches our FIN ends right behind it, and comes in a state in
    /// which the FIN has been sent.
    pub open spec fn fin_ack_fits(self, sender: SenderView, ack_num: SeqNumber) -> bool {
        Self::reaches_fin(sender, ack_num) ==> {
            &&& left_at_fin(sender.unacked, sender.newly_acked(ack_num)) == Some(1int)
            &&& sender.sender_fin_seq_no is Some
            &&& ack_num == sender.sender_fin_seq_no->0.advanced(1)
            &&& awaits_fin_ack(self.state)
        }
    }

    /// The state after an acknowledgement.
    pub open spec fn acknowledged(
        self,
        sender: SenderView,
        ack_num: SeqNumber,
    ) -> ConnectionManagementState {
        if Self::reaches_fin(sender, ack_num) {
            ConnectionManagementState { state: state_after_fin_acked(self.state), ..self }
        } else {
            self
        }
    }

    /// A connection whose handshake is complete.
    pub fn new(
        local: SocketAddrV4,
        remote: SocketAddrV4,
        tcp_config: TcpConfig,
        socket_options: TcpSocketOptions,
    ) -> (cm: Self)
        ensures
            cm == (ConnectionManagementState {
                local,
                remote,
                tcp_config,
                socket_options,
                state: State::Established,
            }),
    {
        ConnectionManagementState {
            local,
            remote,
            tcp_config,
            socket_options,
            state: State::Established,
        }
    }

    /// A connection that waits for the SYN of a peer (passive open).
    pub fn new_listen(
        local: SocketAddrV4,
        tcp_config: TcpConfig,
        socket_options: TcpSocketOptions,
    ) -> (cm: Self)
        ensures
            cm == (ConnectionManagementState {
                local,
                remote: unspecified_addr(),
                tcp_config,
                socket_options,
                state: State::Listen,
            }),
    {
        ConnectionManagementState {
            local,
            remote: SocketAddrV4::unspecified(),
            tcp_config,
            socket_options,
            state: State::Listen,
        }
    }

    /// A connection whose SYN is on its way (active open).
    pub fn new_syn_sent(
        local: SocketAddrV4,
        remote: SocketAddrV4,
        tcp_config: TcpConfig,
        socket_options: TcpSocketOptions,
    ) -> (cm: Self)
        ensures
            cm == (ConnectionManagementState {
                local,
                remote,
                tcp_config,
                socket_options,
                state: State::SynSent,
            }),
    {
        ConnectionManagementState {
            local,
            remote,
            tcp_config,
            socket_options,
            state: State::SynSent,
        }
    }

    /// Our FIN has been acknowledged. It takes up one sequence number, so exactly one is left
    /// of what was acknowledged, and the acknowledgement number is right behind it.
    fn process_acked_fin(
        &mut self,
        delivery_state: &DeliveryState,
        bytes_remaining: usize,
        ack_num: SeqNumber,
    )
        requires
            bytes_remaining == 1,
            delivery_state@.sender.sender_fin_seq_no is Some,
            ack_num == delivery_state@.sender.sender_fin_seq_no->0.advanced(1),
            awaits_fin_ack(old(self).state),
        ensures
            *final(self) == (ConnectionManagementState {
                state: state_after_fin_acked(old(self).state),
                ..*old(self)
            }),
    {
        match self.state {
            State::FinWait1 => {
                self.state = State::FinWait2;
            },
            State::Closing => {
                self.state = State::TimeWait;
            },
            State::LastAck => {
                self.state = State::Closed;
            },
            _ => {},
        }
    }

    /// Follows an acknowledgement through the queue of unacknowledged segments. Returns what is
    /// left of it where it reaches our FIN, if it does.
    fn remaining_at_fin(delivery_state: &DeliveryState, header: &TcpHeader) -> (left: Option<usize>)
        ensures
            match left {
                Some(n) => left_at_fin(
                    delivery_state@.sender.unacked,
                    delivery_state@.sender.newly_acked(header@.ack_num),
                ) == Some(n as int),
                None => !Self::reaches_fin(delivery_state@.sender, header@.ack_num),
            },
    {
        let sender = &delivery_state.sender;
        if !sender.send_unacked.lt(header.ack_num) {
            return None;
        }
        let acked: u32 = header.ack_num.minus(sender.send_unacked);
        let mut remaining: usize = acked as usize;
        let mut i: usize = 0;
        let ghost queue = sender@.unacked;
        assert(queue.skip(0) =~= queue);
        while i < sender.unacked_queue.len() && remaining > 0
            invariant
                i <= sender.unacked_queue.len(),
                queue == sender@.unacked,
                sender == delivery_state.sender,
                sender@.newly_acked(header@.ack_num) == acked,
                left_at_fin(queue.skip(i as int), remaining as int) == left_at_fin(
                    queue,
                    acked as int,
                ),
            decreases sender.unacked_queue.len() - i,
        {
            assert(queue.skip(i as int)[0] == sender.unacked_queue@[i as int]@);
            assert(queue.skip(i as int).drop_first() =~= queue.skip(i + 1));
            match &sender.unacked_queue[i].bytes {
                None => {
                    return Some(remaining);
                },
                Some(data) => {
                    assert(left_at_fin(queue.skip(i as int), remaining as int) == left_at_fin(
                        queue.skip(i + 1),
                        remaining - data@.len(),
                    ));
                    if data.len() >= remaining {
                        remaining = 0;
                    } else {
                        remaining = remaining - data.len();
                    }
                },
            }
            i = i + 1;
        }
        None
    }

    /// Whether the acknowledgement number of a segment can be processed: if it reaches our FIN,
    /// it ends right behind it, and the FIN has been sent.
    pub fn can_process_ack(&self, delivery_state: &DeliveryState, header: &TcpHeader) -> (r: bool)
        ensures
            r == self.fin_ack_fits(delivery_state@.sender, header@.ack_num),
    {
        match Self::remaining_at_fin(delivery_state, header) {
            None => true,
            Some(remaining) => {
                let sent: bool = match self.state {
                    State::FinWait1 | State::Closing | State::LastAck => true,
                    _ => false,
                };
                let behind: bool = match delivery_state.sender.sender_fin_seq_no {
                    Some(fin_seq_no) => header.ack_num == fin_seq_no.plus(1),
                    None => false,
                };
                remaining == 1 && sent && behind
            },
        }
    }

    /// Processes the acknowledgement number of a segment. An acknowledgement that reaches our
    /// FIN moves the connection on; any other leaves it as it is.
    pub fn process_ack_state_change(&mut self, delivery_state: &DeliveryState, header: &TcpHeader)
        requires
            old(self).fin_ack_fits(delivery_state@.sender, header@.ack_num),
        ensures
            *final(self) == old(self).acknowledged(delivery_state@.sender, header@.ack_num),
    {
        match Self::remaining_at_fin(delivery_state, header) {
            Some(remaining) => {
                self.process_acked_fin(delivery_state, remaining, header.ack_num);
            },
            None => {},
        }
    }

    /// A SYN has arrived while listening: LISTEN -> SYN_RECEIVED. Only `remote` and `state`
    /// change.
    pub fn on_syn_in_listen(&mut self, remote: SocketAddrV4)
        requires
            old(self).state == State::Listen,
        ensures
            *final(self) == (ConnectionManagementState {
                remote,
                state: State::SynReceived,
                ..*old(self)
            }),
    {
        self.remote = remote;
        self.state = State::SynReceived;
    }

    /// A SYN+ACK has arrived in answer to our SYN: SYN_SENT -> ESTABLISHED. Only `state`
    /// changes.
    pub fn on_synack_in_synsent(&mut self)
        requires
            old(self).state == State::SynSent,
        ensures
            *final(self) == (ConnectionManagementState { state: State::Established, ..*old(self) }),
    {
        self.state = State::Established;
    }

    /// The final ACK of a handshake has arrived: SYN_RECEIVED -> ESTABLISHED. Only `state`
    /// changes.
    pub fn on_ack_in_synrcvd(&mut self)
        requires
            old(self).state == State::SynReceived,
        ensures
            *final(self) == (ConnectionManagementState { state: State::Established, ..*old(self) }),
    {
        self.state = State::Established;
    }
}

} // verus!

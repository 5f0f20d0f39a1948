//! Flow control: the window that the peer grants.
use crate::config::MAX_WINDOW_SCALE;
use crate::header::{HeaderView, TcpHeader};
use crate::seq_number::SeqNumber;
use vstd::arithmetic::power2::pow2;
use vstd::prelude::*;

verus! {

/// The window that a header field stands for under the given window scale.
pub open spec fn scaled_window(window_size: u16, scale_bits: u8) -> int {
    window_size * pow2(scale_bits as nat)
}

/// The largest window that a header can grant: 65535 * 2^14 bytes.
pub open spec fn max_window() -> int {
    0x3fff_c000
}

/// A granted window never exceeds [`max_window`].
pub proof fn scaled_window_is_bounded(window_size: u16, scale_bits: u8)
    requires
        scale_bits <= MAX_WINDOW_SCALE,
    ensures
        0 <= scaled_window(window_size, scale_bits) <= max_window(),
{
    vstd::arithmetic::power2::lemma2_to64();
    let factor = pow2(scale_bits as nat);
    if scale_bits < MAX_WINDOW_SCALE {
        vstd::arithmetic::power2::lemma_pow2_strictly_increases(scale_bits as nat, 14);
    }
    assert(0 <= window_size * factor <= 65535 * 16384) by (nonlinear_arith)
        requires
            0 <= window_size <= 65535,
            0 <= factor <= 16384,
    ;
}

/// Applies a window scale to the window field of a header.
pub fn scale_window(window_size: u16, scale_bits: u8) -> (window: u32)
    requires
        scale_bits <= MAX_WINDOW_SCALE,
    ensures
        window == scaled_window(window_size, scale_bits),
{
    proof {
        scaled_window_is_bounded(window_size, scale_bits);
        vstd::bits::lemma_u32_shl_is_mul(window_size as u32, scale_bits as u32);
    }
    (window_size as u32) << (scale_bits as u32)
}

/// The send window of a connection, and the segment that last updated it.
#[derive(Clone, Copy, Debug, PartialEq, Eq, Structural)]
pub struct FlowControlState {
    /// SND.WND: how many bytes from SND.UNA on the peer is ready to receive.
    pub send_window: u32,
    /// SND.WL1: the sequence number of the segment that last updated the window.
    pub send_window_last_update_seq: SeqNumber,
    /// SND.WL2: the acknowledgement number of the segment that last updated the window.
    pub send_window_last_update_ack: SeqNumber,
    /// The window scale that the peer advertised.
    pub send_window_scale_shift_bits: u8,
    /// The largest segment that may be sent to the peer.
    pub mss: usize,
}

impl FlowControlState {
    /// The window scale is one that the protocol allows, and the window one that a header
    /// can grant.
    pub open spec fn wf(self) -> bool {
        &&& self.send_window_scale_shift_bits <= MAX_WINDOW_SCALE
        &&& self.send_window <= max_window()
    }

    /// Whether a segment is recent enough to update the window (RFC 9293, 3.10.7.4).
    pub open spec fn is_updated_by(self, header: HeaderView) -> bool {
        ||| self.send_window_last_update_seq.before(header.seq_num)
        ||| self.send_window_last_update_seq == header.seq_num && (
        self.send_window_last_update_ack.before(header.ack_num) || self.send_window_last_update_ack
            == header.ack_num)
    }

    /// The state after a segment.
    pub open spec fn updated(self, header: HeaderView) -> FlowControlState {
        if self.is_updated_by(header) {
            FlowControlState {
                send_window: scaled_window(
                    header.window_size,
                    self.send_window_scale_shift_bits,
                ) as u32,
                send_window_last_update_seq: header.seq_num,
                send_window_last_update_ack: header.ack_num,
                ..self
            }
        } else {
            self
        }
    }

    /// What the peer's SYN says about its window: the window field scaled, the scale and the
    /// segment size. The next segment of the peer starts at `peer_next` and acknowledges
    /// `local_next` at least.
    pub open spec fn negotiated(
        window_size: u16,
        scale_bits: u8,
        mss: usize,
        peer_next: SeqNumber,
        local_next: SeqNumber,
    ) -> FlowControlState {
        FlowControlState {
            send_window: scaled_window(window_size, scale_bits) as u32,
            send_window_last_update_seq: peer_next,
            send_window_last_update_ack: local_next,
            send_window_scale_shift_bits: scale_bits,
            mss,
        }
    }

    pub fn new(
        sender_seq_no: SeqNumber,
        receiver_seq_no: SeqNumber,
        send_window: u32,
        send_window_scale_shift_bits: u8,
        mss: usize,
    ) -> (state: FlowControlState)
        ensures
            state == (FlowControlState {
                send_window,
                send_window_last_update_seq: receiver_seq_no,
                send_window_last_update_ack: sender_seq_no,
                send_window_scale_shift_bits,
                mss,
            }),
    {
        FlowControlState {
            send_window,
            send_window_last_update_seq: receiver_seq_no,
            send_window_last_update_ack: sender_seq_no,
            send_window_scale_shift_bits,
            mss,
        }
    }

    /// Takes over the window of a segment unless a more recent segment has updated it.
    pub fn update_send_window(&mut self, header: &TcpHeader)
        requires
            old(self).send_window_scale_shift_bits <= MAX_WINDOW_SCALE,
        ensures
            *final(self) == old(self).updated(header@),
    {
        let seq: SeqNumber = self.send_window_last_update_seq;
        let ack: SeqNumber = self.send_window_last_update_ack;
        if seq.lt(header.seq_num) || (seq == header.seq_num && (ack.lt(header.ack_num) || ack
            == header.ack_num)) {
            self.send_window = scale_window(header.window_size, self.send_window_scale_shift_bits);
            self.send_window_last_update_seq = header.seq_num;
            self.send_window_last_update_ack = header.ack_num;
        }
    }

    /// Takes over what the SYN of a peer says about its window (passive open).
    pub fn on_syn_in_listen(
        &mut self,
        header: &TcpHeader,
        remote_isn: SeqNumber,
        local_isn: SeqNumber,
        mss: usize,
        window_scale_bits: u8,
    )
        requires
            window_scale_bits <= MAX_WINDOW_SCALE,
        ensures
            *final(self) == FlowControlState::negotiated(
                header@.window_size,
                window_scale_bits,
                mss,
                remote_isn.advanced(1),
                local_isn.advanced(1),
            ),
    {
        self.send_window = scale_window(header.window_size, window_scale_bits);
        self.send_window_last_update_seq = remote_isn.plus(1);
        self.send_window_last_update_ack = local_isn.plus(1);
        self.send_window_scale_shift_bits = window_scale_bits;
        self.mss = mss;
    }

    /// Takes over what the SYN+ACK of a peer says about its window (active open).
    pub fn on_synack_in_synsent(&mut self, header: &TcpHeader, window_scale_bits: u8, mss: usize)
        requires
            window_scale_bits <= MAX_WINDOW_SCALE,
        ensures
            *final(self) == FlowControlState::negotiated(
                header@.window_size,
                window_scale_bits,
                mss,
                header@.seq_num.advanced(1),
                header@.ack_num,
            ),
    {
        self.send_window = scale_window(header.window_size, window_scale_bits);
        self.send_window_last_update_seq = header.seq_num.plus(1);
        self.send_window_last_update_ack = header.ack_num;
        self.send_window_scale_shift_bits = window_scale_bits;
        self.mss = mss;
    }
}

} // verus!

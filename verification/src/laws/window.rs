//! Laws of the window that the peer grants.
use crate::congestion_control::CongestionControl;
use crate::ctrlblk::ControlBlock;
use crate::flow_control_state::{scaled_window, FlowControlState};
use crate::header::HeaderView;
use crate::laws::sequence::advancing_undoes_difference;
use crate::seq_number::SeqNumber;
use crate::time::Instant;
use vstd::arithmetic::power2::{lemma2_to64, lemma_pow2_unfold, pow2};
use vstd::prelude::*;

verus! {

/// Without a scale a header grants as many bytes as it says. Each step of the scale doubles that.
pub proof fn scale_doubles_window(window_size: u16, scale_bits: u8)
    requires
        scale_bits < u8::MAX,
    ensures
        scaled_window(window_size, 0) == window_size,
        scaled_window(window_size, (scale_bits + 1) as u8) == 2 * scaled_window(
            window_size,
            scale_bits,
        ),
{
    lemma2_to64();
    let factor = pow2(scale_bits as nat) as int;
    assert(pow2((scale_bits + 1) as nat) == 2 * pow2(scale_bits as nat)) by {
        lemma_pow2_unfold((scale_bits + 1) as nat);
    }
    assert(window_size * (2 * factor) == 2 * (window_size * factor)) by (nonlinear_arith);
    assert(window_size * 1 == window_size);
}

/// The window follows every segment that is not older than the one that last updated it: one
/// whose sequence number is ahead, or is the same with an acknowledgement number that is ahead
/// or the same, where ahead means by at most half of the sequence space. An older segment
/// changes nothing. What was agreed on in the handshake stays in any case.
pub proof fn window_follows_recent_segments(state: FlowControlState, header: HeaderView)
    requires
        state.send_window_scale_shift_bits <= 14,
    ensures
        ({
            let later = state.updated(header);
            let seq_ahead = header.seq_num.steps_from(state.send_window_last_update_seq);
            let ack_ahead = header.ack_num.steps_from(state.send_window_last_update_ack);
            let recent = 0 < seq_ahead <= 0x8000_0000 || (seq_ahead == 0 && ack_ahead
                <= 0x8000_0000);
            &&& later.send_window_scale_shift_bits == state.send_window_scale_shift_bits
            &&& later.mss == state.mss
            &&& recent ==> {
                &&& later.send_window == header.window_size * pow2(
                    state.send_window_scale_shift_bits as nat,
                )
                &&& later.send_window_last_update_seq == header.seq_num
                &&& later.send_window_last_update_ack == header.ack_num
            }
            &&& !recent ==> later == state
        }),
{
    crate::flow_control_state::scaled_window_is_bounded(
        header.window_size,
        state.send_window_scale_shift_bits,
    );
    advancing_undoes_difference(state.send_window_last_update_seq, header.seq_num, 0);
    advancing_undoes_difference(state.send_window_last_update_ack, header.ack_num, 0);
}

/// Every acknowledgement of a connection that is not older than the last window update sets the
/// send window to what its header grants. In particular a peer that sends no data, so that all
/// its segments have the same sequence number, updates the window with each acknowledgement that
/// goes further.
pub proof fn acknowledgement_sets_window<C: CongestionControl>(
    before: ControlBlock<C>,
    after: ControlBlock<C>,
    header: HeaderView,
    now: Instant,
    further: int,
)
    requires
        before.flow_control.send_window_scale_shift_bits <= 14,
        after.acknowledged_from(before, header, now),
        0 <= further <= 0x8000_0000,
        ({
            ||| header.seq_num == before.flow_control.send_window_last_update_seq && header.ack_num
                == before.flow_control.send_window_last_update_ack.advanced(further)
            ||| further > 0 && header.seq_num
                == before.flow_control.send_window_last_update_seq.advanced(further)
        }),
    ensures
        after.flow_control.send_window == header.window_size * pow2(
            before.flow_control.send_window_scale_shift_bits as nat,
        ),
        after.flow_control.send_window_last_update_seq == header.seq_num,
        after.flow_control.send_window_last_update_ack == header.ack_num,
{
    window_follows_recent_segments(before.flow_control, header);
    advancing_undoes_difference(
        before.flow_control.send_window_last_update_seq,
        header.seq_num,
        further,
    );
    advancing_undoes_difference(
        before.flow_control.send_window_last_update_ack,
        header.ack_num,
        further,
    );
}

/// A segment that has updated the window does so again if it is repeated, and one that is older
/// than it does nothing from then on.
pub proof fn old_segments_do_not_update(
    state: FlowControlState,
    newer: HeaderView,
    older: HeaderView,
    back: int,
)
    requires
        state.send_window_scale_shift_bits <= 14,
        0 < newer.seq_num.steps_from(state.send_window_last_update_seq) <= 0x8000_0000,
        0 < back < 0x8000_0000,
        older.seq_num.advanced(back) == newer.seq_num,
    ensures
        state.updated(newer).updated(newer) == state.updated(newer),
        state.updated(newer).updated(older) == state.updated(newer),
{
    let updated = state.updated(newer);
    window_follows_recent_segments(state, newer);
    window_follows_recent_segments(updated, newer);
    window_follows_recent_segments(updated, older);
    advancing_undoes_difference(older.seq_num, newer.seq_num, back);
}

/// What a handshake settles about the peer's window.
pub proof fn handshake_settles_window(
    window_size: u16,
    scale_bits: u8,
    mss: usize,
    peer_next: SeqNumber,
    local_next: SeqNumber,
)
    requires
        scale_bits <= 14,
    ensures
        ({
            let state = FlowControlState::negotiated(
                window_size,
                scale_bits,
                mss,
                peer_next,
                local_next,
            );
            &&& state.send_window == window_size * pow2(scale_bits as nat)
            &&& state.send_window_scale_shift_bits == scale_bits
            &&& state.mss == mss
            &&& state.send_window_last_update_seq == peer_next
            &&& state.send_window_last_update_ack == local_next
        }),
{
    crate::flow_control_state::scaled_window_is_bounded(window_size, scale_bits);
}

} // verus!

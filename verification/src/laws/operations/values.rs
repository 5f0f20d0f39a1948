//! What the operations on plain values return.
use crate::active_open::{classify_answer, limit_window_scale, parse_synack_options, Answer};
use crate::addr::SocketAddrV4;
use crate::config::{TcpConfig, TcpSocketOptions};
use crate::congestion_control::CongestionControl;
use crate::congestion_control_state::CongestionControlState;
use crate::connection_management_state::ConnectionManagementState;
use crate::ctrlblk::State;
use crate::delivery_state::next_probe_timeout;
use crate::fail::{Errnos, FailKind};
use crate::flow_control_state::{scale_window, FlowControlState};
use crate::header::{TcpHeader, TcpOptions2};
use crate::laws::sequence::{
    advancing_counts_up, advancing_undoes_difference, before_means_within_half,
    difference_counts_steps,
};
use crate::laws::timeout::{sample_moves_estimate, sample_sets_timeout};
use crate::laws::window::scale_doubles_window;
use crate::rto::RtoCalculator;
use crate::seq_number::SeqNumber;
use crate::time::{Duration, Instant};
use vstd::arithmetic::power2::pow2;
use vstd::prelude::*;

verus! {

/// Sequence numbers add, subtract and compare around the circle.
pub proof fn sequence_numbers_go_around(
    a: SeqNumber,
    b: SeqNumber,
    n: u32,
    sum: SeqNumber,
    steps: u32,
    less: bool,
)
    requires
        call_ensures(SeqNumber::plus, (a, n), sum),
        call_ensures(SeqNumber::minus, (b, a), steps),
        call_ensures(SeqNumber::lt, (a, b), less),
    ensures
        sum.value == if a.value + n <= u32::MAX {
            a.value + n
        } else {
            a.value + n - u32::MAX - 1
        },
        steps == if a.value <= b.value {
            b.value - a.value
        } else {
            u32::MAX + 1 - (a.value - b.value)
        },
        less <==> 0 < steps <= 0x8000_0000,
{
    advancing_counts_up(a, n as int);
    difference_counts_steps(a, b);
    before_means_within_half(a, b);
}

/// A buffer moves a sequence number by its length, however long it is.
pub proof fn lengths_go_around(a: SeqNumber, n: usize, sum: SeqNumber, same: SeqNumber, value: u32)
    requires
        call_ensures(SeqNumber::plus_len, (a, n), sum),
        call_ensures(SeqNumber::new, (value,), same),
    ensures
        sum.value == (a.value + n) % 0x1_0000_0000,
        same.value == value,
{
}

/// Time goes ahead and is measured without ever running over.
pub proof fn clock_saturates(
    t: Instant,
    earlier: Instant,
    span: Duration,
    later: Instant,
    passed: Duration,
)
    requires
        call_ensures(Instant::after, (t, span), later),
        call_ensures(Instant::since, (t, earlier), passed),
    ensures
        later.nanos == if t.nanos + span.nanos <= u64::MAX {
            t.nanos + span.nanos
        } else {
            u64::MAX as int
        },
        passed.nanos == if earlier.nanos <= t.nanos {
            t.nanos - earlier.nanos
        } else {
            0
        },
{
}

/// A header window stands for itself times two to the scale.
pub proof fn windows_are_scaled(window_size: u16, scale_bits: u8, window: u32)
    requires
        call_ensures(scale_window, (window_size, scale_bits), window),
    ensures
        window == window_size * pow2(scale_bits as nat),
{
}

/// The answer to a SYN: a reset that acknowledges the SYN refuses it, with or without a SYN of its
/// own; a SYN that acknowledges it and resets nothing accepts it; everything else is unrelated.
pub proof fn answers_are_told_apart(header: TcpHeader, local_isn: SeqNumber, answer: Answer)
    requires
        call_ensures(classify_answer, (&header, local_isn), answer),
    ensures
        ({
            let acknowledges = header.ack && header.ack_num.steps_from(local_isn) == 1;
            &&& answer == Answer::Refused <==> acknowledges && header.rst
            &&& answer == Answer::Accepted <==> acknowledges && !header.rst && header.syn
            &&& answer == Answer::Unrelated <==> !acknowledges || (!header.rst && !header.syn)
        }),
{
    advancing_undoes_difference(local_isn, header.ack_num, 1);
}

/// Whether the option at `i` is the last one that gives a window scale.
pub open spec fn is_last_scale(options: Seq<TcpOptions2>, i: int) -> bool {
    &&& 0 <= i < options.len()
    &&& options[i] is WindowScale
    &&& forall|j: int| i < j < options.len() ==> !(#[trigger] options[j] is WindowScale)
}

/// Whether the option at `i` is the last one that gives a segment size.
pub open spec fn is_last_mss(options: Seq<TcpOptions2>, i: int) -> bool {
    &&& 0 <= i < options.len()
    &&& options[i] is MaximumSegmentSize
    &&& forall|j: int| i < j < options.len() ==> !(#[trigger] options[j] is MaximumSegmentSize)
}

/// What follows the last option of a sort does not matter.
proof fn later_options_do_not_matter(options: Seq<TcpOptions2>, i: int)
    ensures
        is_last_scale(options, i) ==> crate::active_open::last_window_scale(options) == Some(
            options[i]->WindowScale_0,
        ),
        is_last_mss(options, i) ==> crate::active_open::last_mss(options)
            == options[i]->MaximumSegmentSize_0,
        (forall|j: int| 0 <= j < options.len() ==> !(#[trigger] options[j] is WindowScale)) ==>
            crate::active_open::last_window_scale(options) is None,
        (forall|j: int| 0 <= j < options.len() ==> !(#[trigger] options[j] is MaximumSegmentSize))
            ==> crate::active_open::last_mss(options) == 536,
    decreases options.len(),
{
    if options.len() > 0 {
        let shorter = options.drop_last();
        later_options_do_not_matter(shorter, i);
        let last = options.len() - 1;
        assert(options[last] == options.last());
        assert forall|j: int| 0 <= j < shorter.len() implies #[trigger] shorter[j]
            == options[j] by {}
    }
}

/// The options of a SYN+ACK: the last window scale and the last segment size count. Without them
/// there is no scale, and segments of 536 bytes.
pub proof fn options_are_read(options: Vec<TcpOptions2>, parsed: (Option<u8>, usize), i: int)
    requires
        call_ensures(parse_synack_options, (&options,), parsed),
    ensures
        is_last_scale(options@, i) ==> parsed.0 == Some(options@[i]->WindowScale_0),
        is_last_mss(options@, i) ==> parsed.1 == options@[i]->MaximumSegmentSize_0,
        (forall|j: int| 0 <= j < options@.len() ==> !(#[trigger] options@[j] is WindowScale)) ==>
            parsed.0 is None,
        (forall|j: int| 0 <= j < options@.len() ==> !(#[trigger] options@[j] is MaximumSegmentSize))
            ==> parsed.1 == 536,
{
    later_options_do_not_matter(options@, i);
}

/// A window scale is used up to 14.
pub proof fn scales_are_limited(scale: Option<u8>, usable: u8)
    requires
        call_ensures(limit_window_scale, (scale,), usable),
    ensures
        usable <= 14,
        scale is None ==> usable == 0,
        scale is Some && scale->0 <= 14 ==> usable == scale->0,
        scale is Some && scale->0 > 14 ==> usable == 14,
{
}

/// The waits between window probes: a second, and twice as long each time.
pub proof fn probe_waits(last: Option<Duration>, timeout: Duration)
    requires
        call_ensures(next_probe_timeout, (last,), timeout),
    ensures
        last is None ==> timeout.nanos == 1_000_000_000,
        last is Some && 2 * last->0.nanos <= u64::MAX ==> timeout.nanos == 2 * last->0.nanos,
        last is Some && 2 * last->0.nanos > u64::MAX ==> timeout.nanos == u64::MAX,
{
}

/// A measurement moves the estimate and the timeout, whatever was known before.
pub proof fn samples_move_timeout(calculator: &mut RtoCalculator, rtt: Duration)
    requires
        call_ensures(RtoCalculator::add_sample, (calculator, rtt), ()),
    ensures
        final(calculator).estimate is Some,
        old(calculator).estimate is None ==> final(calculator).estimate->0.srtt == rtt,
        old(calculator).estimate is None ==> 0 <= rtt.nanos - 2 * final(calculator).estimate->0.rttvar.nanos <= 1,
        old(calculator).estimate is Some ==> 0 <= 7 * old(calculator).estimate->0.srtt.nanos
            + rtt.nanos - 8 * final(calculator).estimate->0.srtt.nanos < 8,
        1_000_000_000 <= final(calculator).timeout.nanos <= 60_000_000_000,
        ({
            let estimate = final(calculator).estimate->0;
            let wanted = estimate.srtt.nanos + 4 * estimate.rttvar.nanos;
            4 * estimate.rttvar.nanos >= 1_000_000 && 1_000_000_000 <= wanted <= 60_000_000_000 ==>
                final(calculator).timeout.nanos == wanted
        }),
{
    sample_moves_estimate(*old(calculator), rtt);
    sample_sets_timeout(*old(calculator), rtt);
}

/// A back-off doubles the timeout, up to a minute, and leaves the estimate alone.
pub proof fn back_off_doubles_timeout(calculator: &mut RtoCalculator)
    requires
        call_ensures(RtoCalculator::back_off, (calculator,), ()),
        1_000_000_000 <= old(calculator).timeout.nanos <= 60_000_000_000,
    ensures
        final(calculator).estimate == old(calculator).estimate,
        final(calculator).timeout.nanos == if old(calculator).timeout.nanos <= 30_000_000_000 {
            2 * old(calculator).timeout.nanos
        } else {
            60_000_000_000
        },
{
}

/// A new calculator knows nothing and waits a second. The timeout is what it holds.
pub proof fn new_calculator_waits_a_second(
    fresh: RtoCalculator,
    calculator: RtoCalculator,
    timeout: Duration,
)
    requires
        call_ensures(RtoCalculator::new, (), fresh),
        call_ensures(RtoCalculator::rto, (&calculator,), timeout),
    ensures
        fresh.estimate is None,
        fresh.timeout.nanos == 1_000_000_000,
        timeout == calculator.timeout,
{
}

/// How much may be sent at once, given that both windows have room: the largest number of bytes
/// that fits a segment and both windows.
pub proof fn open_window_is_largest<C: CongestionControl>(
    win_sz: u32,
    sent_data: u32,
    mss: usize,
    cwnd: u32,
    size: usize,
    open: bool,
)
    requires
        sent_data <= win_sz,
        sent_data <= cwnd,
        call_ensures(
            CongestionControlState::<C>::calculate_open_window_bytes,
            (win_sz, sent_data, mss, cwnd),
            size,
        ),
        call_ensures(CongestionControlState::<C>::has_open_window, (win_sz, sent_data, cwnd), open),
    ensures
        size <= mss,
        sent_data + size <= win_sz,
        sent_data + size <= cwnd,
        size == mss || sent_data + size == win_sz || sent_data + size == cwnd,
        open <==> win_sz > 0,
{
}

/// A window is shut as soon as more is in flight than it holds.
pub proof fn exceeded_window_is_shut<C: CongestionControl>(
    win_sz: u32,
    sent_data: u32,
    cwnd: u32,
    open: bool,
)
    requires
        call_ensures(CongestionControlState::<C>::has_open_window, (win_sz, sent_data, cwnd), open),
    ensures
        !open <==> win_sz == 0 || sent_data > win_sz || sent_data > cwnd,
{
}

/// Each failure has its own number, and a timeout is recognised by its number.
pub proof fn failures_are_numbered(
    errnos: Errnos,
    a: FailKind,
    b: FailKind,
    first: i32,
    second: i32,
    timeout: bool,
)
    requires
        call_ensures(Errnos::current, (), errnos),
        call_ensures(Errnos::errno, (&errnos, a), first),
        call_ensures(Errnos::errno, (&errnos, b), second),
        call_ensures(Errnos::is_timeout, (&errnos, first), timeout),
    ensures
        first != 0,
        a != b <==> first != second,
        timeout <==> a == FailKind::TimedOut,
{
    assert(errnos.number(a) == first);
    assert(errnos.number(FailKind::TimedOut) == errnos.timed_out);
}

/// The constructors of connection management keep what they are given, and differ in the state
/// alone. A listening connection has no peer yet.
pub proof fn connections_keep_their_ends(
    local: SocketAddrV4,
    remote: SocketAddrV4,
    config: TcpConfig,
    options: TcpSocketOptions,
    established: ConnectionManagementState,
    listening: ConnectionManagementState,
    connecting: ConnectionManagementState,
)
    requires
        call_ensures(
            ConnectionManagementState::new,
            (local, remote, config, options),
            established,
        ),
        call_ensures(ConnectionManagementState::new_listen, (local, config, options), listening),
        call_ensures(
            ConnectionManagementState::new_syn_sent,
            (local, remote, config, options),
            connecting,
        ),
    ensures
        established.state == State::Established,
        listening.state == State::Listen,
        connecting.state == State::SynSent,
        established.local == local && listening.local == local && connecting.local == local,
        established.remote == remote && connecting.remote == remote,
        listening.remote.ip.bits == 0 && listening.remote.port == 0,
        established.tcp_config == config && listening.tcp_config == config && connecting.tcp_config
            == config,
        established.socket_options == options && listening.socket_options == options
            && connecting.socket_options == options,
{
}

/// The transitions of a handshake change the state, the SYN of a peer also the peer's address,
/// and nothing else.
pub proof fn handshake_moves_state(
    listening: &mut ConnectionManagementState,
    remote: SocketAddrV4,
    connecting: &mut ConnectionManagementState,
    answering: &mut ConnectionManagementState,
)
    requires
        call_ensures(ConnectionManagementState::on_syn_in_listen, (listening, remote), ()),
        call_ensures(ConnectionManagementState::on_synack_in_synsent, (connecting,), ()),
        call_ensures(ConnectionManagementState::on_ack_in_synrcvd, (answering,), ()),
    ensures
        final(listening).state == State::SynReceived,
        final(listening).remote == remote,
        final(listening).local == old(listening).local,
        final(listening).tcp_config == old(listening).tcp_config,
        final(listening).socket_options == old(listening).socket_options,
        final(connecting).state == State::Established,
        final(connecting).remote == old(connecting).remote,
        final(connecting).local == old(connecting).local,
        final(connecting).tcp_config == old(connecting).tcp_config,
        final(connecting).socket_options == old(connecting).socket_options,
        final(answering).state == State::Established,
        final(answering).remote == old(answering).remote,
        final(answering).local == old(answering).local,
        final(answering).tcp_config == old(answering).tcp_config,
        final(answering).socket_options == old(answering).socket_options,
{
}

/// Flow control starts with what it is given.
pub proof fn flow_control_keeps_settings(
    sender_seq_no: SeqNumber,
    receiver_seq_no: SeqNumber,
    send_window: u32,
    scale: u8,
    mss: usize,
    state: FlowControlState,
)
    requires
        call_ensures(
            FlowControlState::new,
            (sender_seq_no, receiver_seq_no, send_window, scale, mss),
            state,
        ),
    ensures
        state.send_window == send_window,
        state.send_window_last_update_seq == receiver_seq_no,
        state.send_window_last_update_ack == sender_seq_no,
        state.send_window_scale_shift_bits == scale,
        state.mss == mss,
{
}

/// The window field of a header counts in steps of two to the scale: one step of the scale more
/// doubles the window.
pub proof fn scale_step_doubles_window(window_size: u16, scale: u8, window: u32, doubled: u32)
    requires
        scale < 14,
        call_ensures(scale_window, (window_size, scale), window),
        call_ensures(scale_window, (window_size, (scale + 1) as u8), doubled),
    ensures
        doubled == 2 * window,
        scale == 0 ==> window == window_size,
{
    scale_doubles_window(window_size, scale);
}

/// Options are kept in the order in which they are added. A new header has none and nothing set.
pub proof fn headers_collect_options(
    src_port: u16,
    dst_port: u16,
    fresh: TcpHeader,
    header: &mut TcpHeader,
    option: TcpOptions2,
)
    requires
        call_ensures(TcpHeader::new, (src_port, dst_port), fresh),
        call_ensures(TcpHeader::push_option, (header, option), ()),
    ensures
        fresh.src_port == src_port,
        fresh.dst_port == dst_port,
        fresh.options@.len() == 0,
        !fresh.syn && !fresh.ack && !fresh.rst && !fresh.fin && !fresh.psh && !fresh.urg,
        fresh.window_size == 0,
        final(header)@.options.len() == old(header)@.options.len() + 1,
        final(header)@.options.drop_last() == old(header)@.options,
        final(header)@.options.last() == option,
        final(header).seq_num == old(header).seq_num,
        final(header).ack_num == old(header).ack_num,
        final(header).window_size == old(header).window_size,
        final(header).syn == old(header).syn,
        final(header).ack == old(header).ack,
        final(header).src_port == old(header).src_port,
        final(header).dst_port == old(header).dst_port,
{
    assert(fresh@.src_port == src_port);
    assert(final(header)@.options.drop_last() =~= old(header)@.options);
    assert(final(header)@.seq_num == old(header)@.seq_num);
}

} // verus!

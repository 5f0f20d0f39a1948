//! Configuration of the TCP stack and of its sockets.
use crate::time::Duration;
use vstd::prelude::*;

verus! {

/// The segment size that a peer which advertises none must accept (RFC 9293, 3.7.1).
pub const FALLBACK_MSS: usize = 536;

/// The largest window scale that may be used (RFC 1323, 2.3).
pub const MAX_WINDOW_SCALE: u8 = 14;

/// Settings that all connections of a stack share.
#[derive(Clone, Copy, Debug, PartialEq, Eq, Structural)]
pub struct TcpConfig {
    /// The maximum segment size advertised to peers.
    pub advertised_mss: usize,
    /// How many times a SYN is sent before a handshake is given up.
    pub handshake_retries: usize,
    /// How long to wait for the answer to a SYN.
    pub handshake_timeout: Duration,
    /// The receive window as advertised in headers, before scaling.
    pub receive_window_size: u16,
    /// The window scale advertised to peers.
    pub window_scale: u8,
    /// How long an acknowledgement may be delayed.
    pub ack_delay_timeout: Duration,
    pub rx_checksum_offload: bool,
    pub tx_checksum_offload: bool,
}

impl TcpConfig {
    /// The advertised window scale is one that the protocol allows.
    pub open spec fn wf(self) -> bool {
        self.window_scale <= MAX_WINDOW_SCALE
    }
}

/// Options set on a single socket. The control path only carries them along.
#[derive(Clone, Copy, Debug, PartialEq, Eq, Structural)]
pub struct TcpSocketOptions {
    pub keep_alive: bool,
    pub linger: Option<Duration>,
    pub no_delay: bool,
}

} // verus!

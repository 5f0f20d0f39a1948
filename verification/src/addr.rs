//! IPv4 addresses and socket addresses.
use vstd::prelude::*;

verus! {

/// An IPv4 address, in host byte order.
#[derive(Clone, Copy, Debug, PartialEq, Eq, Structural)]
pub struct Ipv4Addr {
    pub bits: u32,
}

/// An IPv4 address together with a port.
#[derive(Clone, Copy, Debug, PartialEq, Eq, Structural)]
pub struct SocketAddrV4 {
    pub ip: Ipv4Addr,
    pub port: u16,
}

/// The address 0.0.0.0 with port 0, which stands for a peer that is not known yet.
pub open spec fn unspecified_addr() -> SocketAddrV4 {
    SocketAddrV4 { ip: Ipv4Addr { bits: 0 }, port: 0 }
}

impl SocketAddrV4 {
    /// The address 0.0.0.0:0.
    pub fn unspecified() -> (addr: SocketAddrV4)
        ensures
            addr == unspecified_addr(),
    {
        SocketAddrV4 { ip: Ipv4Addr { bits: 0 }, port: 0 }
    }
}

} // verus!

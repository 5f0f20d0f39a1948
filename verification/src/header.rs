//! TCP headers and the segments that the stack hands to the network layer.
use crate::addr::Ipv4Addr;
use crate::seq_number::SeqNumber;
use vstd::prelude::*;

verus! {

/// An option of a TCP header.
#[derive(Clone, Copy, Debug, PartialEq, Eq, Structural)]
pub enum TcpOptions2 {
    NoOperation,
    EndOfOptionsList,
    MaximumSegmentSize(u16),
    WindowScale(u8),
    SelectiveAcknowlegementPermitted,
    Timestamp { sender_timestamp: u32, echo_timestamp: u32 },
}

/// A TCP header.
#[derive(Clone, Debug, PartialEq, Eq)]
pub struct TcpHeader {
    pub src_port: u16,
    pub dst_port: u16,
    pub seq_num: SeqNumber,
    pub ack_num: SeqNumber,
    pub ns: bool,
    pub cwr: bool,
    pub ece: bool,
    pub urg: bool,
    pub ack: bool,
    pub psh: bool,
    pub rst: bool,
    pub syn: bool,
    pub fin: bool,
    pub window_size: u16,
    pub urgent_pointer: u16,
    pub options: Vec<TcpOptions2>,
}

/// The contents of a [`TcpHeader`].
#[verifier::ext_equal]
pub struct HeaderView {
    pub src_port: u16,
    pub dst_port: u16,
    pub seq_num: SeqNumber,
    pub ack_num: SeqNumber,
    pub ns: bool,
    pub cwr: bool,
    pub ece: bool,
    pub urg: bool,
    pub ack: bool,
    pub psh: bool,
    pub rst: bool,
    pub syn: bool,
    pub fin: bool,
    pub window_size: u16,
    pub urgent_pointer: u16,
    pub options: Seq<TcpOptions2>,
}

impl View for TcpHeader {
    type V = HeaderView;

    open spec fn view(&self) -> HeaderView {
        HeaderView {
            src_port: self.src_port,
            dst_port: self.dst_port,
            seq_num: self.seq_num,
            ack_num: self.ack_num,
            ns: self.ns,
            cwr: self.cwr,
            ece: self.ece,
            urg: self.urg,
            ack: self.ack,
            psh: self.psh,
            rst: self.rst,
            syn: self.syn,
            fin: self.fin,
            window_size: self.window_size,
            urgent_pointer: self.urgent_pointer,
            options: self.options@,
        }
    }
}

impl HeaderView {
    /// A header between the given ports with everything else zero, unset or absent.
    pub open spec fn blank(src_port: u16, dst_port: u16) -> HeaderView {
        HeaderView {
            src_port,
            dst_port,
            seq_num: SeqNumber { value: 0 },
            ack_num: SeqNumber { value: 0 },
            ns: false,
            cwr: false,
            ece: false,
            urg: false,
            ack: false,
            psh: false,
            rst: false,
            syn: false,
            fin: false,
            window_size: 0,
            urgent_pointer: 0,
            options: Seq::empty(),
        }
    }
}

impl TcpHeader {
    pub fn new(src_port: u16, dst_port: u16) -> (header: TcpHeader)
        ensures
            header@ == HeaderView::blank(src_port, dst_port),
    {
        TcpHeader {
            src_port,
            dst_port,
            seq_num: SeqNumber::new(0),
            ack_num: SeqNumber::new(0),
            ns: false,
            cwr: false,
            ece: false,
            urg: false,
            ack: false,
            psh: false,
            rst: false,
            syn: false,
            fin: false,
            window_size: 0,
            urgent_pointer: 0,
            options: Vec::new(),
        }
    }

    /// Appends an option.
    pub fn push_option(&mut self, option: TcpOptions2)
        ensures
            final(self)@ == (HeaderView { options: old(self)@.options.push(option), ..old(self)@ }),
    {
        self.options.push(option);
    }
}

/// A segment on its way to the network layer, which serialises the header in front of the
/// payload and sends the packet to the destination.
#[derive(Clone, Debug, PartialEq, Eq)]
pub struct OutgoingSegment {
    pub source: Ipv4Addr,
    pub destination: Ipv4Addr,
    /// Whether the checksum is left to the network interface.
    pub checksum_offload: bool,
    pub header: TcpHeader,
    pub payload: Vec<u8>,
}

/// The contents of an [`OutgoingSegment`].
#[verifier::ext_equal]
pub struct SegmentView {
    pub source: Ipv4Addr,
    pub destination: Ipv4Addr,
    pub checksum_offload: bool,
    pub header: HeaderView,
    pub payload: Seq<u8>,
}

impl View for OutgoingSegment {
    type V = SegmentView;

    open spec fn view(&self) -> SegmentView {
        SegmentView {
            source: self.source,
            destination: self.destination,
            checksum_offload: self.checksum_offload,
            header: self.header@,
            payload: self.payload@,
        }
    }
}

} // verus!

//! What a frame from a virtual interface carries: the protocol that its leading
//! field names, and for an IPv4 frame the transport protocol and the place where
//! the transport header starts.

use vstd::prelude::*;
use vstd::std_specs::convert::FromSpecImpl;
use crate::message::from_be16;

verus! {

/// The protocol of a frame's payload, as the frame names it.
#[derive(Clone, Copy, Debug, PartialEq, Eq, Structural)]
pub enum EtherType {
    IPv4,
    IPv6,
    Undefined,
}

/// The transport protocol of an IP packet. Only the protocols that matter here
/// have a name.
#[derive(Clone, Copy, Debug, PartialEq, Eq, Structural)]
pub enum ProtocolType {
    ICMP,
    TCP,
    UDP,
    Undefined,
}

impl EtherType {
    /// The protocol that the number names.
    pub open spec fn named(value: u16) -> EtherType {
        if value == 0x0800 {
            EtherType::IPv4
        } else if value == 0x86DD {
            EtherType::IPv6
        } else {
            EtherType::Undefined
        }
    }
}

impl ProtocolType {
    /// The transport protocol that the number names.
    pub open spec fn named(value: u8) -> ProtocolType {
        if value == 1 {
            ProtocolType::ICMP
        } else if value == 6 {
            ProtocolType::TCP
        } else if value == 17 {
            ProtocolType::UDP
        } else {
            ProtocolType::Undefined
        }
    }
}

impl From<u16> for EtherType {
    fn from(value: u16) -> (ether_type: EtherType) {
        if value == 0x0800 {
            EtherType::IPv4
        } else if value == 0x86DD {
            EtherType::IPv6
        } else {
            EtherType::Undefined
        }
    }
}

impl FromSpecImpl<u16> for EtherType {
    open spec fn obeys_from_spec() -> bool {
        true
    }

    open spec fn from_spec(value: u16) -> EtherType {
        EtherType::named(value)
    }
}

impl From<u8> for ProtocolType {
    fn from(value: u8) -> (protocol: ProtocolType) {
        if value == 1 {
            ProtocolType::ICMP
        } else if value == 6 {
            ProtocolType::TCP
        } else if value == 17 {
            ProtocolType::UDP
        } else {
            ProtocolType::Undefined
        }
    }
}

impl FromSpecImpl<u8> for ProtocolType {
    open spec fn obeys_from_spec() -> bool {
        true
    }

    open spec fn from_spec(value: u8) -> ProtocolType {
        ProtocolType::named(value)
    }
}

/// Where the field that names the payload's protocol starts in a frame.
pub const FRAME_ETHER_TYPE_START: usize = 2;

/// Where the payload starts in a frame.
pub const FRAME_RAW_PROTO_START: usize = 4;

/// The length of an IPv4 header that starts a buffer, as its first byte
/// announces it: four times the lower half of that byte.
pub open spec fn ipv4_header_len(packet: Seq<u8>) -> int
    recommends
        packet.len() > 0,
{
    (packet[0] as int % 16) * 4
}

/// Whether a buffer starts with a whole IPv4 header: it has the twenty bytes of
/// the fixed fields, its version is four, the header that it announces is no
/// shorter than the fixed fields and no longer than the buffer, and the total
/// length that it announces has room for the header.
pub open spec fn ipv4_well_framed(packet: Seq<u8>) -> bool {
    &&& packet.len() >= 20
    &&& packet[0] as int / 16 == 4
    &&& 20 <= ipv4_header_len(packet) <= packet.len()
    &&& from_be16(packet[2], packet[3]) >= ipv4_header_len(packet)
}

/// `etherparse::ReadError`, the reason why a header was rejected. It is handed
/// on and not looked into.
#[verifier::external_type_specification]
#[verifier::external_body]
pub struct ExReadError(etherparse::ReadError);

/// `etherparse::Ipv4HeaderSlice::from_slice` on the bytes of `frame` from
/// `start` on, then `protocol` and the length of `slice` of what it returns: the
/// header is accepted exactly where the bytes start with a whole IPv4 header, and
/// then the protocol is the tenth byte and the slice is as long as the header
/// announces.
#[verifier::external_body]
pub(crate) fn read_ipv4_header(frame: &Vec<u8>, start: usize) -> (r: Result<
    (u8, usize),
    etherparse::ReadError,
>)
    requires
        start <= frame.len(),
    ensures
        r is Ok == ipv4_well_framed(frame@.skip(start as int)),
        r matches Ok((protocol, len)) ==> protocol == frame@[start + 9] && len == ipv4_header_len(
            frame@.skip(start as int),
        ),
{
    let header = etherparse::Ipv4HeaderSlice::from_slice(&frame[start..])?;
    Ok((header.protocol(), header.slice().len()))
}

/// What a frame carries.
#[derive(Clone, Copy, Debug, PartialEq, Eq, Structural)]
pub enum Frame {
    /// The frame is too short to name a protocol.
    Short,
    /// The frame carries something other than IPv4.
    Other(EtherType),
    /// The frame names IPv4 and does not start with a whole IPv4 header.
    Malformed,
    /// The frame carries an IPv4 packet with the given transport protocol, whose
    /// transport header starts at the given place in the frame.
    Ipv4 { protocol: ProtocolType, transport_at: usize },
}

/// The protocol that a frame names, for a frame that is long enough.
pub open spec fn ether_type_of(frame: Seq<u8>) -> EtherType
    recommends
        frame.len() >= 4,
{
    EtherType::named(from_be16(frame[2], frame[3]))
}

/// What a frame carries.
pub open spec fn frame_of(frame: Seq<u8>) -> Frame {
    if frame.len() < 4 {
        Frame::Short
    } else if ether_type_of(frame) != EtherType::IPv4 {
        Frame::Other(ether_type_of(frame))
    } else if !ipv4_well_framed(frame.skip(4)) {
        Frame::Malformed
    } else {
        Frame::Ipv4 {
            protocol: ProtocolType::named(frame[13]),
            transport_at: (4 + ipv4_header_len(frame.skip(4))) as usize,
        }
    }
}

/// Looks at a frame and says what it carries.
pub fn inspect_frame(frame: &Vec<u8>) -> (kind: Frame)
    ensures
        kind == frame_of(frame@),
{
    if frame.len() < FRAME_RAW_PROTO_START {
        return Frame::Short;
    }
    let named: u16 = frame[FRAME_ETHER_TYPE_START] as u16 * 256 + frame[FRAME_ETHER_TYPE_START
        + 1] as u16;
    let ether_type = EtherType::from(named);
    match ether_type {
        EtherType::IPv4 => {},
        _ => {
            return Frame::Other(ether_type);
        },
    }
    match read_ipv4_header(frame, FRAME_RAW_PROTO_START) {
        Ok((protocol, len)) => {
            assert(frame@.skip(4)[0] == frame@[4]);
            assert(len <= 60);
            Frame::Ipv4 { protocol: ProtocolType::from(protocol), transport_at: 4 + len }
        },
        Err(_) => Frame::Malformed,
    }
}

} // verus!

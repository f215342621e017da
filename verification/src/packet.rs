//! IP packets, and the TCP and UDP headers inside them.
use crate::addr::{address, lemma_address, IpAddr, IpVersion};
use smoltcp::wire::{
    Error as WireError, IpVersion as SmolIpVersion, Ipv4Packet, Ipv6Packet, TcpPacket, UdpPacket,
};
use vstd::prelude::*;

verus! {

/// A raw IP packet.
pub type AnyIpPktFrame = Vec<u8>;

#[verifier::external_type_specification]
#[verifier::external_body]
pub struct ExWireError(WireError);

/// The protocols that the stack tells apart.
#[derive(Debug, Clone, Copy, PartialEq, Eq, Structural)]
pub enum IpProtocol {
    Icmp,
    Tcp,
    Udp,
    Icmpv6,
    Other(u8),
}

impl IpProtocol {
    /// The protocol with the given number.
    pub open spec fn numbered(number: u8) -> IpProtocol {
        match number {
            1u8 => IpProtocol::Icmp,
            6u8 => IpProtocol::Tcp,
            17u8 => IpProtocol::Udp,
            58u8 => IpProtocol::Icmpv6,
            _ => IpProtocol::Other(number),
        }
    }

    /// The protocol with the given number.
    pub fn from_number(number: u8) -> (protocol: IpProtocol)
        ensures
            protocol == IpProtocol::numbered(number),
    {
        match number {
            1u8 => IpProtocol::Icmp,
            6u8 => IpProtocol::Tcp,
            17u8 => IpProtocol::Udp,
            58u8 => IpProtocol::Icmpv6,
            _ => IpProtocol::Other(number),
        }
    }
}

/// The number in network order at `i`.
pub open spec fn be16(octets: Seq<u8>, i: int) -> int {
    octets[i] * 256 + octets[i + 1]
}

/// What the stack reads in an IP packet.
#[verifier::ext_equal]
pub struct IpParts {
    pub version: IpVersion,
    pub src: Seq<u8>,
    pub dst: Seq<u8>,
    pub protocol: u8,
    pub payload: Seq<u8>,
}

impl IpParts {
    /// The address that the packet comes from.
    pub open spec fn src_addr(self) -> IpAddr {
        address(self.version, self.src)
    }

    /// The address that the packet goes to.
    pub open spec fn dst_addr(self) -> IpAddr {
        address(self.version, self.dst)
    }
}

/// The parts of an IPv4 packet. Its header and its total length have to fit.
pub open spec fn ipv4_parts(frame: Seq<u8>) -> Option<IpParts> {
    let header_len = (frame[0] % 16) * 4;
    let total_len = be16(frame, 2);
    if frame.len() < 20 || frame.len() < header_len || total_len < header_len || frame.len()
        < total_len {
        None
    } else {
        Some(
            IpParts {
                version: IpVersion::V4,
                src: frame.subrange(12, 16),
                dst: frame.subrange(16, 20),
                protocol: frame[9],
                payload: frame.subrange(header_len, total_len),
            },
        )
    }
}

/// The parts of an IPv6 packet. Its header and its payload length have to fit.
pub open spec fn ipv6_parts(frame: Seq<u8>) -> Option<IpParts> {
    let total_len = 40 + be16(frame, 4);
    if frame.len() < 40 || frame.len() < total_len {
        None
    } else {
        Some(
            IpParts {
                version: IpVersion::V6,
                src: frame.subrange(8, 24),
                dst: frame.subrange(24, 40),
                protocol: frame[6],
                payload: frame.subrange(40, total_len),
            },
        )
    }
}

/// The parts of an IP packet, by the version in its first four bits.
pub open spec fn ip_parts(frame: Seq<u8>) -> Option<IpParts> {
    if frame.len() == 0 {
        None
    } else if frame[0] / 16 == 4 {
        ipv4_parts(frame)
    } else if frame[0] / 16 == 6 {
        ipv6_parts(frame)
    } else {
        None
    }
}

/// What the stack reads in a TCP segment.
#[derive(Debug, Clone, Copy, PartialEq, Eq, Structural)]
pub struct TcpSegment {
    pub src_port: u16,
    pub dst_port: u16,
    pub syn: bool,
    pub ack: bool,
}

/// What the stack reads in a TCP segment. Its header has to fit and to be long
/// enough.
pub open spec fn tcp_parts(segment: Seq<u8>) -> Option<TcpSegment> {
    let header_len = (segment[12] / 16) * 4;
    if segment.len() < 20 || segment.len() < header_len || header_len < 20 {
        None
    } else {
        Some(
            TcpSegment {
                src_port: be16(segment, 0) as u16,
                dst_port: be16(segment, 2) as u16,
                syn: (segment[13] / 2) % 2 == 1,
                ack: (segment[13] / 16) % 2 == 1,
            },
        )
    }
}

/// What the stack reads in a UDP datagram.
#[verifier::ext_equal]
pub struct UdpParts {
    pub src_port: u16,
    pub dst_port: u16,
    pub payload: Seq<u8>,
}

/// The parts of a UDP datagram. Its length has to fit and to cover the header.
pub open spec fn udp_parts(datagram: Seq<u8>) -> Option<UdpParts> {
    let len = be16(datagram, 4);
    if datagram.len() < 8 || datagram.len() < len || len < 8 {
        None
    } else {
        Some(
            UdpParts {
                src_port: be16(datagram, 0) as u16,
                dst_port: be16(datagram, 2) as u16,
                payload: datagram.subrange(8, len),
            },
        )
    }
}

/// An IP packet whose lengths were checked.
pub struct IpPacket<'a> {
    pub src: IpAddr,
    pub dst: IpAddr,
    pub protocol_number: u8,
    pub body: &'a [u8],
}

/// A UDP datagram whose lengths were checked.
pub struct UdpDatagram<'a> {
    pub src_port: u16,
    pub dst_port: u16,
    pub body: &'a [u8],
}

/// The octets are no IP packet, or their lengths contradict each other.
#[derive(Debug, Clone, Copy, PartialEq, Eq, Structural)]
pub struct InvalidPacket;

/// `IpVersion::of_packet`: the version, where the first four bits are 4 or 6. It
/// panics without a first octet.
#[verifier::external_body]
fn version_of(frame: &[u8]) -> (res: Result<IpVersion, WireError>)
    requires
        frame@.len() > 0,
    ensures
        res is Ok <==> frame@[0] / 16 == 4 || frame@[0] / 16 == 6,
        res matches Ok(version) ==> (version == IpVersion::V4 <==> frame@[0] / 16 == 4),
{
    match SmolIpVersion::of_packet(frame) {
        Ok(SmolIpVersion::Ipv4) => Ok(IpVersion::V4),
        Ok(SmolIpVersion::Ipv6) => Ok(IpVersion::V6),
        Err(error) => Err(error),
    }
}

/// `Ipv4Packet::new_checked` and the accessors of the packet.
#[verifier::external_body]
fn read_ipv4(frame: &[u8]) -> (res: Result<IpPacket<'_>, WireError>)
    ensures
        res is Ok <==> ipv4_parts(frame@) is Some,
        res matches Ok(packet) ==> ipv4_parts(frame@) == Some(packet@),
{
    let packet = Ipv4Packet::new_checked(frame)?;
    Ok(
        IpPacket {
            src: IpAddr::V4(packet.src_addr().octets()),
            dst: IpAddr::V4(packet.dst_addr().octets()),
            protocol_number: u8::from(packet.next_header()),
            body: packet.payload(),
        },
    )
}

/// `Ipv6Packet::new_checked` and the accessors of the packet.
#[verifier::external_body]
fn read_ipv6(frame: &[u8]) -> (res: Result<IpPacket<'_>, WireError>)
    ensures
        res is Ok <==> ipv6_parts(frame@) is Some,
        res matches Ok(packet) ==> ipv6_parts(frame@) == Some(packet@),
{
    let packet = Ipv6Packet::new_checked(frame)?;
    Ok(
        IpPacket {
            src: IpAddr::V6(packet.src_addr().octets()),
            dst: IpAddr::V6(packet.dst_addr().octets()),
            protocol_number: u8::from(packet.next_header()),
            body: packet.payload(),
        },
    )
}

/// `TcpPacket::new_checked` and the accessors of the packet.
#[verifier::external_body]
pub(crate) fn read_tcp(segment: &[u8]) -> (res: Result<TcpSegment, WireError>)
    ensures
        res is Ok <==> tcp_parts(segment@) is Some,
        res matches Ok(parts) ==> tcp_parts(segment@) == Some(parts),
{
    let packet = TcpPacket::new_checked(segment)?;
    Ok(
        TcpSegment {
            src_port: packet.src_port(),
            dst_port: packet.dst_port(),
            syn: packet.syn(),
            ack: packet.ack(),
        },
    )
}

/// `UdpPacket::new_checked` and the accessors of the packet.
#[verifier::external_body]
pub(crate) fn read_udp(datagram: &[u8]) -> (res: Result<UdpDatagram<'_>, WireError>)
    ensures
        res is Ok <==> udp_parts(datagram@) is Some,
        res matches Ok(parts) ==> udp_parts(datagram@) == Some(parts@),
{
    let packet = UdpPacket::new_checked(datagram)?;
    Ok(
        UdpDatagram {
            src_port: packet.src_port(),
            dst_port: packet.dst_port(),
            body: packet.payload(),
        },
    )
}

impl<'a> View for IpPacket<'a> {
    type V = IpParts;

    open spec fn view(&self) -> IpParts {
        IpParts {
            version: self.src.version(),
            src: self.src.octets(),
            dst: self.dst.octets(),
            protocol: self.protocol_number,
            payload: self.body@,
        }
    }
}

impl<'a> View for UdpDatagram<'a> {
    type V = UdpParts;

    open spec fn view(&self) -> UdpParts {
        UdpParts { src_port: self.src_port, dst_port: self.dst_port, payload: self.body@ }
    }
}

impl<'a> IpPacket<'a> {
    /// Reads an IP packet, and checks that its lengths fit.
    pub fn new_checked(frame: &'a [u8]) -> (res: Result<IpPacket<'a>, InvalidPacket>)
        ensures
            res is Ok <==> ip_parts(frame@) is Some,
            res matches Ok(packet) ==> ip_parts(frame@) == Some(packet@) && packet.src
                == packet@.src_addr() && packet.dst == packet@.dst_addr(),
    {
        if frame.len() == 0 {
            return Err(InvalidPacket);
        }
        let read = match version_of(frame) {
            Ok(IpVersion::V4) => read_ipv4(frame),
            Ok(IpVersion::V6) => read_ipv6(frame),
            Err(_) => return Err(InvalidPacket),
        };
        match read {
            Ok(packet) => {
                proof {
                    match packet.dst {
                        IpAddr::V4(octets) => assert(octets@.len() == 4),
                        IpAddr::V6(octets) => assert(octets@.len() == 16),
                    }
                    lemma_address(packet.src);
                    lemma_address(packet.dst);
                }
                Ok(packet)
            },
            Err(_) => Err(InvalidPacket),
        }
    }

    /// The address that the packet comes from.
    pub fn src_addr(&self) -> (addr: IpAddr)
        ensures
            addr == self.src,
            addr.octets() == self@.src,
    {
        self.src
    }

    /// The address that the packet goes to.
    pub fn dst_addr(&self) -> (addr: IpAddr)
        ensures
            addr == self.dst,
            addr.octets() == self@.dst,
    {
        self.dst
    }

    /// The protocol of what the packet carries.
    pub fn protocol(&self) -> (protocol: IpProtocol)
        ensures
            protocol == IpProtocol::numbered(self@.protocol),
    {
        IpProtocol::from_number(self.protocol_number)
    }

    /// What the packet carries.
    pub fn payload(&self) -> (payload: &'a [u8])
        ensures
            payload@ == self@.payload,
    {
        self.body
    }
}

} // verus!

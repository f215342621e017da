//! Laws on what is read in the octets of a frame.
use crate::addr::{lemma_address, IpAddr, SocketAddr};
use crate::listener::{parse_tcp_packet, TcpHeader};
use crate::packet::{ip_parts, InvalidPacket, IpPacket, IpProtocol};
use vstd::prelude::*;

verus! {

/// The number in the two octets at `i`, the higher one first.
pub open spec fn word(octets: Seq<u8>, i: int) -> int {
    octets[i] * 0x100 + octets[i + 1]
}

/// Whether a frame is an IPv4 packet: its version is 4, its fixed header is there,
/// and it says itself to end behind its header and within the frame. Nothing else in
/// the header matters.
pub open spec fn is_ipv4(frame: Seq<u8>) -> bool {
    &&& frame.len() >= 20
    &&& 0x40 <= frame[0] <= 0x4f
    &&& 4 * (frame[0] - 0x40) <= word(frame, 2) <= frame.len()
}

/// Whether a frame is an IPv6 packet: its version is 6, its fixed header is there,
/// and it says itself to end within the frame. Nothing else in the header matters.
pub open spec fn is_ipv6(frame: Seq<u8>) -> bool {
    &&& frame.len() >= 40
    &&& 0x60 <= frame[0] <= 0x6f
    &&& word(frame, 4) <= frame.len() - 40
}

/// Where what a packet carries begins.
pub open spec fn body_start(frame: Seq<u8>) -> int {
    if frame[0] < 0x60 {
        4 * (frame[0] - 0x40)
    } else {
        40
    }
}

/// Where what a packet carries ends.
pub open spec fn body_end(frame: Seq<u8>) -> int {
    if frame[0] < 0x60 {
        word(frame, 2)
    } else {
        40 + word(frame, 4)
    }
}

/// The number of the protocol that a packet carries.
pub open spec fn protocol_octet(frame: Seq<u8>) -> u8 {
    if frame[0] < 0x60 {
        frame[9]
    } else {
        frame[6]
    }
}

/// Whether an address is the one that a packet comes from.
pub open spec fn comes_from(frame: Seq<u8>, addr: IpAddr) -> bool {
    match addr {
        IpAddr::V4(o) => frame[0] < 0x60 && forall|i: int|
            0 <= i < 4 ==> #[trigger] o@[i] == frame[12 + i],
        IpAddr::V6(o) => frame[0] >= 0x60 && forall|i: int|
            0 <= i < 16 ==> #[trigger] o@[i] == frame[8 + i],
    }
}

/// Whether an address is the one that a packet goes to.
pub open spec fn goes_to(frame: Seq<u8>, addr: IpAddr) -> bool {
    match addr {
        IpAddr::V4(o) => frame[0] < 0x60 && forall|i: int|
            0 <= i < 4 ==> #[trigger] o@[i] == frame[16 + i],
        IpAddr::V6(o) => frame[0] >= 0x60 && forall|i: int|
            0 <= i < 16 ==> #[trigger] o@[i] == frame[24 + i],
    }
}

/// Whether a socket address is that of `port` at `ip`, without flow information and
/// scope.
pub open spec fn is_at(addr: SocketAddr, ip: IpAddr, port: int) -> bool {
    match (addr, ip) {
        (SocketAddr::V4(a), IpAddr::V4(o)) => a.ip == o && a.port == port,
        (SocketAddr::V6(a), IpAddr::V6(o)) => a.ip == o && a.port == port && a.flowinfo == 0
            && a.scope_id == 0,
        _ => false,
    }
}

/// Whether a socket address is the end of a packet that sends from `port`.
pub open spec fn is_sender(addr: SocketAddr, frame: Seq<u8>, port: int) -> bool {
    exists|ip: IpAddr| #[trigger] comes_from(frame, ip) && is_at(addr, ip, port)
}

/// Whether a socket address is the end of a packet that receives at `port`.
pub open spec fn is_receiver(addr: SocketAddr, frame: Seq<u8>, port: int) -> bool {
    exists|ip: IpAddr| #[trigger] goes_to(frame, ip) && is_at(addr, ip, port)
}

/// The addresses of a packet are those that its octets give.
pub proof fn lemma_ends(frame: Seq<u8>)
    requires
        is_ipv4(frame) || is_ipv6(frame),
    ensures
        ip_parts(frame) is Some,
        comes_from(frame, ip_parts(frame)->0.src_addr()),
        goes_to(frame, ip_parts(frame)->0.dst_addr()),
{
    if is_ipv4(frame) {
        let src = [frame[12], frame[13], frame[14], frame[15]];
        let dst = [frame[16], frame[17], frame[18], frame[19]];
        assert(src@ =~= frame.subrange(12, 16));
        assert(dst@ =~= frame.subrange(16, 20));
        lemma_address(IpAddr::V4(src));
        lemma_address(IpAddr::V4(dst));
    } else {
        let f = frame;
        let src = [
            f[8], f[9], f[10], f[11], f[12], f[13], f[14], f[15], f[16], f[17], f[18], f[19],
            f[20], f[21], f[22], f[23],
        ];
        let dst = [
            f[24], f[25], f[26], f[27], f[28], f[29], f[30], f[31], f[32], f[33], f[34], f[35],
            f[36], f[37], f[38], f[39],
        ];
        assert(src@ =~= frame.subrange(8, 24));
        assert(dst@ =~= frame.subrange(24, 40));
        lemma_address(IpAddr::V6(src));
        lemma_address(IpAddr::V6(dst));
    }
}

/// Every packet of either version is read, and nothing else is; its addresses, its
/// protocol and what it carries are the octets at their places.
pub proof fn law_every_packet_is_read(
    frame: &[u8],
    res: Result<IpPacket<'_>, InvalidPacket>,
)
    requires
        call_ensures(IpPacket::new_checked, (frame,), res),
    ensures
        res is Ok <==> is_ipv4(frame@) || is_ipv6(frame@),
        res matches Ok(packet) ==> {
            &&& comes_from(frame@, packet.src)
            &&& goes_to(frame@, packet.dst)
            &&& packet.protocol_number == protocol_octet(frame@)
            &&& packet.body@ == frame@.subrange(body_start(frame@), body_end(frame@))
        },
{
    if res is Ok {
        let packet = res->Ok_0;
        let f = frame@;
        match packet.src {
            IpAddr::V4(o) => {
                assert(o@ == f.subrange(12, 16));
            },
            IpAddr::V6(o) => {
                assert(o@ == f.subrange(8, 24));
            },
        }
        match packet.dst {
            IpAddr::V4(o) => {
                assert(o@.len() == 4);
                assert(f[0] < 0x60 ==> o@ == f.subrange(16, 20));
            },
            IpAddr::V6(o) => {
                assert(o@.len() == 16);
                assert(f[0] >= 0x60 ==> o@ == f.subrange(24, 40));
            },
        }
    }
}

/// What is asked of a packet that was read is what was read.
pub proof fn law_packet_tells_what_it_holds(
    packet: IpPacket<'_>,
    src: IpAddr,
    dst: IpAddr,
    payload: &[u8],
)
    requires
        call_ensures(IpPacket::src_addr, (&packet,), src),
        call_ensures(IpPacket::dst_addr, (&packet,), dst),
        call_ensures(IpPacket::payload, (&packet,), payload),
    ensures
        src == packet.src,
        dst == packet.dst,
        payload@ == packet.body@,
{
}

/// The four protocols that the stack handles are known by their numbers, and every
/// other number is kept.
pub proof fn law_protocols_have_their_numbers(packet: IpPacket<'_>, protocol: IpProtocol)
    requires
        call_ensures(IpPacket::protocol, (&packet,), protocol),
    ensures
        protocol is Icmp <==> packet.protocol_number == 1,
        protocol is Tcp <==> packet.protocol_number == 6,
        protocol is Udp <==> packet.protocol_number == 17,
        protocol is Icmpv6 <==> packet.protocol_number == 58,
        protocol matches IpProtocol::Other(number) ==> number == packet.protocol_number,
{
}

/// A number names its protocol, and no other.
pub proof fn law_numbers_name_protocols(number: u8, protocol: IpProtocol)
    requires
        call_ensures(IpProtocol::from_number, (number,), protocol),
    ensures
        protocol is Icmp <==> number == 1,
        protocol is Tcp <==> number == 6,
        protocol is Udp <==> number == 17,
        protocol is Icmpv6 <==> number == 58,
        protocol matches IpProtocol::Other(kept) ==> kept == number,
{
}

/// Whether octets begin with a TCP header that fits.
pub open spec fn has_tcp_header(body: Seq<u8>) -> bool {
    &&& body.len() >= 20
    &&& 0x50 <= body[12]
    &&& 4 * (body[12] / 0x10) <= body.len()
}

/// Every TCP header that fits is read, and nothing else is; its ports and its flags
/// are those at their places, and its ends are those of the packet.
pub proof fn law_every_segment_is_read(packet: IpPacket<'_>, res: Option<TcpHeader>)
    requires
        call_ensures(parse_tcp_packet, (&packet,), res),
    ensures
        res is Some <==> has_tcp_header(packet.body@),
        res matches Some(header) ==> {
            &&& is_at(header.src, packet.src, word(packet.body@, 0))
            &&& is_at(header.dst, packet.dst, word(packet.body@, 2))
            &&& header.segment.src_port == word(packet.body@, 0)
            &&& header.segment.dst_port == word(packet.body@, 2)
            &&& header.segment.syn <==> packet.body@[13] % 4 >= 2
            &&& header.segment.ack <==> packet.body@[13] % 32 >= 16
        },
{
}

/// The address of a socket is made of its parts, and gives them back.
pub proof fn law_socket_address_is_its_parts(
    ip: IpAddr,
    port: u16,
    addr: SocketAddr,
    ip_back: IpAddr,
    port_back: u16,
)
    requires
        call_ensures(SocketAddr::new, (ip, port), addr),
        call_ensures(SocketAddr::ip, (&addr,), ip_back),
        call_ensures(SocketAddr::port, (&addr,), port_back),
    ensures
        is_at(addr, ip, port as int),
        ip_back == ip,
        port_back == port,
{
}

} // verus!

//! Laws on accepting TCP connections.
use crate::addr::{IpAddr, SocketAddr};
use crate::control::{ControlView, SocketState};
use crate::error::NetError;
use crate::laws::octets::{
    body_end, body_start, comes_from, goes_to, is_at, is_ipv4, is_ipv6, is_receiver, is_sender,
    lemma_ends, protocol_octet, word,
};
use crate::listener::{create_connection, handle_packet, next_wait, PacketAction};
use crate::packet::{ip_parts, AnyIpPktFrame};
use crate::shared::made_around;
use crate::socket::{tcp_view, TcpState, TcpView};
use crate::table::NewConnection;
use vstd::prelude::*;

verus! {

/// Whether a packet carries ICMP, of either version.
pub open spec fn carries_control(frame: Seq<u8>) -> bool {
    protocol_octet(frame) == 1 || protocol_octet(frame) == 58
}

/// Whether a TCP header that fits begins where what a packet carries begins.
pub open spec fn carries_segment(frame: Seq<u8>) -> bool {
    let at = body_start(frame);
    let room = body_end(frame) - at;
    &&& room >= 20
    &&& frame[at + 12] >= 0x50
    &&& 4 * (frame[at + 12] / 0x10) <= room
}

/// Whether the flags of a segment ask for a connection and acknowledge nothing.
pub open spec fn asks_to_connect(frame: Seq<u8>) -> bool {
    let flags = frame[body_start(frame) + 13];
    flags % 4 >= 2 && flags % 32 < 16
}

/// A socket on which nothing was received or written and that waits for a
/// connection to `port` at `ip`, with the settings of the stack.
pub open spec fn waits_at(socket: TcpView, ip: IpAddr, port: u16) -> bool {
    &&& socket.state == TcpState::Listen
    &&& socket.listen_endpoint == Some((ip, port))
    &&& socket.rx.len() == 0
    &&& socket.tx.len() == 0
    &&& socket.rx_capacity == 16383
    &&& socket.tx_capacity == 16383
    &&& socket.keep_alive == Some(28_000_000nat)
    &&& socket.timeout == Some(7_200_000_000nat)
    &&& !socket.nagle
}

/// The control of a stream on which nothing has happened.
pub open spec fn untouched(control: ControlView) -> bool {
    &&& control.send.len() == 0
    &&& control.recv.len() == 0
    &&& control.send_capacity == 16383
    &&& control.recv_capacity == 16383
    &&& control.send_waker is None
    &&& control.recv_waker is None
    &&& control.shutdown_waker is None
    &&& control.send_state == SocketState::Active
    &&& control.recv_state == SocketState::Active
}

/// A segment that asks for a connection opens one, in a packet of either version:
/// the application gets a stream between the two ends in the packet, a socket waits
/// for the connection at the receiving end, the two share a control, and the frame
/// goes on as it came. Only port zero is refused.
pub proof fn law_connection_is_opened(
    frame: AnyIpPktFrame,
    res: Result<PacketAction, NetError>,
)
    requires
        call_ensures(handle_packet, (frame,), res),
        is_ipv4(frame@) || is_ipv6(frame@),
        !carries_control(frame@),
        carries_segment(frame@),
        asks_to_connect(frame@),
    ensures
        ({
            let src_port = word(frame@, body_start(frame@));
            let dst_port = word(frame@, body_start(frame@) + 2);
            if dst_port == 0 {
                res matches Err(error) && error == NetError::ListenFailed
            } else {
                &&& res matches Ok(PacketAction::Open { stream, connection, frame: forwarded })
                &&& forwarded@ == frame@
                &&& is_sender(stream.src_addr, frame@, src_port)
                &&& is_receiver(stream.dst_addr, frame@, dst_port)
                &&& stream.control == connection.control
                &&& untouched(made_around(*connection.control)@)
                &&& exists|ip: IpAddr|
                    #[trigger] goes_to(frame@, ip) && waits_at(
                        tcp_view(connection.socket),
                        ip,
                        dst_port as u16,
                    )
            }
        }),
{
    let f = frame@;
    let parts = ip_parts(f)->0;
    lemma_ends(f);
    assert(comes_from(f, parts.src_addr()));
    assert(goes_to(f, parts.dst_addr()));
    let at = body_start(f);
    assert(parts.payload =~= f.subrange(at, body_end(f)));
    assert(parts.payload[0] == f[at] && parts.payload[1] == f[at + 1]);
    assert(parts.payload[2] == f[at + 2] && parts.payload[3] == f[at + 3]);
    assert(parts.payload[12] == f[at + 12] && parts.payload[13] == f[at + 13]);
}

/// ICMP and every segment that does not ask for a connection go on as they came, in
/// packets of either version, and open nothing.
pub proof fn law_other_packets_are_forwarded(
    frame: AnyIpPktFrame,
    res: Result<PacketAction, NetError>,
)
    requires
        call_ensures(handle_packet, (frame,), res),
        is_ipv4(frame@) || is_ipv6(frame@),
        carries_control(frame@) || carries_segment(frame@) && !asks_to_connect(frame@),
    ensures
        res matches Ok(PacketAction::Forward(forwarded)) && forwarded@ == frame@,
{
    let f = frame@;
    lemma_ends(f);
    let parts = ip_parts(f)->0;
    let at = body_start(f);
    assert(parts.payload =~= f.subrange(at, body_end(f)));
    if !carries_control(f) {
        assert(parts.payload[12] == f[at + 12] && parts.payload[13] == f[at + 13]);
    }
}

/// What is no packet is dropped, and so is a packet that carries neither ICMP nor a
/// segment. Nothing else is.
pub proof fn law_only_other_frames_are_dropped(
    frame: AnyIpPktFrame,
    res: Result<PacketAction, NetError>,
)
    requires
        call_ensures(handle_packet, (frame,), res),
    ensures
        (res matches Ok(PacketAction::Ignore)) <==> !(is_ipv4(frame@) || is_ipv6(frame@))
            || !carries_control(frame@) && !carries_segment(frame@),
{
    let f = frame@;
    if is_ipv4(f) || is_ipv6(f) {
        lemma_ends(f);
        let parts = ip_parts(f)->0;
        let at = body_start(f);
        assert(parts.payload =~= f.subrange(at, body_end(f)));
        if body_end(f) - at >= 20 {
            assert(parts.payload[12] == f[at + 12] && parts.payload[13] == f[at + 13]);
        }
    }
}

/// A connection can be made to every port but zero, at every address of either
/// version.
pub proof fn law_connection_is_created(
    ip: IpAddr,
    port: u16,
    dst: SocketAddr,
    res: Result<NewConnection, NetError>,
)
    requires
        is_at(dst, ip, port as int),
        call_ensures(create_connection, (dst,), res),
    ensures
        port == 0 <==> (res matches Err(error) && error == NetError::ListenFailed),
        port != 0 <==> res is Ok,
        res matches Ok(connection) ==> waits_at(tcp_view(connection.socket), ip, port)
            && untouched(made_around(*connection.control)@),
{
}

/// The wait is the one that the interface asks for, ten milliseconds where it asks
/// for none, and left out exactly where it is to be polled at once.
pub proof fn law_wait_is_what_was_asked_for(delay: Option<u64>, wait: Option<u64>)
    requires
        call_ensures(next_wait, (delay,), wait),
    ensures
        wait is None <==> delay == Some(0u64),
        delay is None ==> wait == Some(10_000u64),
        delay is Some && wait is Some ==> wait == delay,
{
}

} // verus!

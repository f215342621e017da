//! The decisions of the task that opens TCP connections and drives their sockets.
use crate::addr::{IpAddr, SocketAddr};
use crate::control::{ControlView, SocketControl, Step, BUFFER_SIZE};
use crate::error::NetError;
use crate::packet::{ip_parts, read_tcp, tcp_parts, AnyIpPktFrame, IpPacket, IpProtocol, TcpSegment};
use crate::shared::{made_around, share, share_control};
use crate::socket::{
    tcp_listen, tcp_new, tcp_set_keep_alive, tcp_set_nagle, tcp_set_timeout, tcp_view, TcpState,
    TcpView, MICROS_PER_SEC,
};
use crate::stream::TcpStream;
use crate::table::NewConnection;
use crate::waker::Wakeups;
use vstd::prelude::*;

verus! {

/// How often an idle connection is probed, in seconds.
pub const KEEPALIVE_SECS: u64 = 28;

/// After how long a silent connection is given up, in seconds.
pub const SOCKET_TIMEOUT_SECS: u64 = 7200;

/// How long to wait at most where the interface names no time, in microseconds.
pub const IDLE_WAIT_MICROS: u64 = 10_000;

/// A socket that waits for a connection to `at`.
pub open spec fn listening(at: SocketAddr) -> TcpView {
    TcpView {
        state: TcpState::Listen,
        rx: Seq::empty(),
        rx_capacity: BUFFER_SIZE as nat,
        tx: Seq::empty(),
        tx_capacity: BUFFER_SIZE as nat,
        keep_alive: Some((KEEPALIVE_SECS * MICROS_PER_SEC) as nat),
        timeout: Some((SOCKET_TIMEOUT_SECS * MICROS_PER_SEC) as nat),
        nagle: false,
        listen_endpoint: Some((at.ip_part(), at.port_part())),
    }
}

/// The two ends of a TCP segment, and what else the stack reads in it.
pub struct TcpHeader {
    pub src: SocketAddr,
    pub dst: SocketAddr,
    pub segment: TcpSegment,
}

/// The TCP segment that `src` sends to `dst` in `payload`, where there is one.
pub open spec fn tcp_header(src: IpAddr, dst: IpAddr, payload: Seq<u8>) -> Option<TcpHeader> {
    match tcp_parts(payload) {
        Some(segment) => Some(
            TcpHeader {
                src: SocketAddr::at(src, segment.src_port),
                dst: SocketAddr::at(dst, segment.dst_port),
                segment,
            },
        ),
        None => None,
    }
}

/// What a frame calls for.
pub enum Purpose {
    /// Nothing: it is no packet, or a packet without a TCP segment.
    Ignore,
    /// It goes to the interface.
    Forward,
    /// It opens a connection, and then goes to the interface.
    Open(TcpHeader),
}

/// What a frame calls for. ICMP goes to the interface as it is; so does TCP, and a
/// segment that asks for a connection and acknowledges nothing opens one.
pub open spec fn purpose(frame: Seq<u8>) -> Purpose {
    match ip_parts(frame) {
        None => Purpose::Ignore,
        Some(parts) => {
            let protocol = IpProtocol::numbered(parts.protocol);
            if protocol == IpProtocol::Icmp || protocol == IpProtocol::Icmpv6 {
                Purpose::Forward
            } else {
                match tcp_header(parts.src_addr(), parts.dst_addr(), parts.payload) {
                    None => Purpose::Ignore,
                    Some(header) => if header.segment.syn && !header.segment.ack {
                        Purpose::Open(header)
                    } else {
                        Purpose::Forward
                    },
                }
            }
        },
    }
}

/// Whether a stream and a connection are the two sides of what a segment opened:
/// they share a control on which nothing has happened, and the socket listens where
/// the segment goes.
pub open spec fn opened(header: TcpHeader, stream: TcpStream, connection: NewConnection) -> bool {
    &&& stream.src_addr == header.src
    &&& stream.dst_addr == header.dst
    &&& stream.control == connection.control
    &&& tcp_view(connection.socket) == listening(header.dst)
    &&& made_around(*connection.control)@ == ControlView::fresh()
}

/// What to do with a frame.
pub enum PacketAction {
    /// Drop it.
    Ignore,
    /// Hand it to the interface.
    Forward(AnyIpPktFrame),
    /// Hand the stream to the application and the connection to the task that
    /// drives the sockets, and then the frame to the interface.
    Open { stream: TcpStream, connection: NewConnection, frame: AnyIpPktFrame },
}

/// Reads the TCP segment in a packet, and between which ends it goes.
pub fn parse_tcp_packet(packet: &IpPacket<'_>) -> (res: Option<TcpHeader>)
    ensures
        res == tcp_header(packet.src, packet.dst, packet@.payload),
{
    match read_tcp(packet.payload()) {
        Ok(segment) => Some(
            TcpHeader {
                src: SocketAddr::new(packet.src_addr(), segment.src_port),
                dst: SocketAddr::new(packet.dst_addr(), segment.dst_port),
                segment,
            },
        ),
        Err(_) => None,
    }
}

/// Creates the socket and the control of a connection to `dst_addr`. There is no
/// connection to port zero.
pub fn create_connection(dst_addr: SocketAddr) -> (res: Result<NewConnection, NetError>)
    ensures
        dst_addr.port_part() == 0 ==> res == Err::<NewConnection, NetError>(NetError::ListenFailed),
        dst_addr.port_part() != 0 ==> res is Ok,
        res matches Ok(connection) ==> {
            &&& tcp_view(connection.socket) == listening(dst_addr)
            &&& made_around(*connection.control)@ == ControlView::fresh()
        },
{
    let mut socket = tcp_new(vec![0u8; BUFFER_SIZE], vec![0u8; BUFFER_SIZE]);
    tcp_set_keep_alive(&mut socket, KEEPALIVE_SECS);
    tcp_set_timeout(&mut socket, SOCKET_TIMEOUT_SECS);
    tcp_set_nagle(&mut socket, false);
    match tcp_listen(&mut socket, dst_addr) {
        Ok(()) => Ok(NewConnection { control: share_control(SocketControl::new()), socket }),
        Err(_) => Err(NetError::ListenFailed),
    }
}

/// Decides what to do with a frame.
pub fn handle_packet(frame: AnyIpPktFrame) -> (res: Result<PacketAction, NetError>)
    ensures
        match purpose(frame@) {
            Purpose::Ignore => res == Ok::<PacketAction, NetError>(PacketAction::Ignore),
            Purpose::Forward => {
                &&& res matches Ok(PacketAction::Forward(forwarded))
                &&& forwarded@ == frame@
            },
            Purpose::Open(header) => if header.dst.port_part() == 0 {
                res == Err::<PacketAction, NetError>(NetError::ListenFailed)
            } else {
                &&& res matches Ok(PacketAction::Open { stream, connection, frame: forwarded })
                &&& forwarded@ == frame@
                &&& opened(header, stream, connection)
            },
        },
{
    let header = match IpPacket::new_checked(frame.as_slice()) {
        Ok(packet) => {
            if matches!(packet.protocol(), IpProtocol::Icmp | IpProtocol::Icmpv6) {
                None
            } else {
                match parse_tcp_packet(&packet) {
                    Some(header) => Some(header),
                    None => return Ok(PacketAction::Ignore),
                }
            }
        },
        Err(_) => return Ok(PacketAction::Ignore),
    };
    match header {
        Some(header) if header.segment.syn && !header.segment.ack => {
            match create_connection(header.dst) {
                Ok(connection) => {
                    let stream = TcpStream::new(
                        header.src,
                        header.dst,
                        share(&connection.control),
                    );
                    Ok(PacketAction::Open { stream, connection, frame })
                },
                Err(error) => Err(error),
            }
        },
        _ => Ok(PacketAction::Forward(frame)),
    }
}

/// How long to wait for the next event, in microseconds, where the interface wants
/// to be polled after `delay`. There is no wait where it wants that at once.
pub fn next_wait(delay: Option<u64>) -> (wait: Option<u64>)
    ensures
        wait == match delay {
            None => Some(IDLE_WAIT_MICROS),
            Some(0u64) => None,
            Some(micros) => Some(micros),
        },
{
    let micros: u64 = match delay {
        Some(micros) => micros,
        None => IDLE_WAIT_MICROS,
    };
    if micros != 0 {
        Some(micros)
    } else {
        None
    }
}

/// Servicing a connection that was just opened changes nothing: it waits for its
/// peer.
pub proof fn law_new_connection_waits(at: SocketAddr)
    ensures
        ControlView::fresh().step(listening(at)) == (Step {
            control: ControlView::fresh(),
            socket: listening(at),
            wakeups: Wakeups::nobody(),
            finished: false,
        }),
{
    let step = ControlView::fresh().step(listening(at));
    assert(step.control =~= ControlView::fresh());
    assert(step.socket =~= listening(at));
}

} // verus!

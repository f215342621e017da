//! smoltcp's TCP socket.
//!
//! A socket is modelled by the state of its connection, the octets in its two
//! buffers and its settings.
use crate::addr::{IpAddr, SocketAddr};
use crate::ring::{least, ring_capacity, ring_contents, ring_dequeue, ring_enqueue};
use smoltcp::socket::tcp::{
    ListenError, RecvError, SendError, Socket as TcpSocket, State as SmolState,
};
use smoltcp::storage::RingBuffer;
use smoltcp::time::Duration as SmolDuration;
use smoltcp::wire::{IpAddress, Ipv4Address, Ipv6Address};
use vstd::prelude::*;

verus! {

#[verifier::external_type_specification]
#[verifier::external_body]
pub struct ExTcpSocket<'a>(TcpSocket<'a>);

#[verifier::external_type_specification]
#[verifier::external_body]
pub struct ExListenError(ListenError);

#[verifier::external_type_specification]
#[verifier::external_body]
pub struct ExRecvError(RecvError);

#[verifier::external_type_specification]
#[verifier::external_body]
pub struct ExSendError(SendError);

/// The states of a TCP connection.
#[derive(Debug, Clone, Copy, PartialEq, Eq, Structural)]
pub enum TcpState {
    Closed,
    Listen,
    SynSent,
    SynReceived,
    Established,
    FinWait1,
    FinWait2,
    CloseWait,
    Closing,
    LastAck,
    TimeWait,
}

/// What the stack knows of a socket.
#[verifier::ext_equal]
pub struct TcpView {
    /// The state of the connection.
    pub state: TcpState,
    /// The received octets that wait to be read, oldest first.
    pub rx: Seq<u8>,
    /// The most octets that can wait to be read.
    pub rx_capacity: nat,
    /// The octets that wait to be sent or acknowledged, oldest first.
    pub tx: Seq<u8>,
    /// The most octets that can wait to be sent or acknowledged.
    pub tx_capacity: nat,
    /// The keep-alive interval in microseconds.
    pub keep_alive: Option<nat>,
    /// The timeout in microseconds.
    pub timeout: Option<nat>,
    /// Whether small segments are held back while data is in flight.
    pub nagle: bool,
    /// Where the socket listens, or listened before it was connected.
    pub listen_endpoint: Option<(IpAddr, u16)>,
}

impl TcpView {
    /// Whether the transmit half is open.
    pub open spec fn may_send(self) -> bool {
        self.state == TcpState::Established || self.state == TcpState::CloseWait
    }

    /// Whether the receive half is open, or has octets left to read.
    pub open spec fn may_recv(self) -> bool {
        ||| self.state == TcpState::Established
        ||| self.state == TcpState::FinWait1
        ||| self.state == TcpState::FinWait2
        ||| self.rx.len() > 0
    }

    /// Whether the socket handles packets.
    pub open spec fn is_open(self) -> bool {
        self.state != TcpState::Closed && self.state != TcpState::TimeWait
    }

    /// Whether the connection is not yet established.
    pub open spec fn in_handshake(self) -> bool {
        ||| self.state == TcpState::Listen
        ||| self.state == TcpState::SynSent
        ||| self.state == TcpState::SynReceived
    }

    /// The socket with its transmit half closed.
    pub open spec fn closed(self) -> TcpView {
        let state = match self.state {
            TcpState::Listen | TcpState::SynSent => TcpState::Closed,
            TcpState::SynReceived | TcpState::Established => TcpState::FinWait1,
            TcpState::CloseWait => TcpState::LastAck,
            other => other,
        };
        TcpView { state, ..self }
    }
}

/// The view of a socket.
pub uninterp spec fn tcp_view(socket: TcpSocket<'static>) -> TcpView;

/// Microseconds in a second.
pub const MICROS_PER_SEC: u64 = 1_000_000;

/// `Socket::new` with two `SocketBuffer`s over the given storage: a closed socket
/// with empty buffers as large as their storage, no keep-alive, no timeout and
/// Nagle's algorithm on. Panics where the receive buffer is over 1 GiB.
#[verifier::external_body]
pub(crate) fn tcp_new(rx_storage: Vec<u8>, tx_storage: Vec<u8>) -> (socket: TcpSocket<'static>)
    requires
        rx_storage@.len() <= 0x4000_0000,
    ensures
        tcp_view(socket) == (TcpView {
            state: TcpState::Closed,
            rx: Seq::empty(),
            rx_capacity: rx_storage@.len(),
            tx: Seq::empty(),
            tx_capacity: tx_storage@.len(),
            keep_alive: None,
            timeout: None,
            nagle: true,
            listen_endpoint: None,
        }),
{
    TcpSocket::new(RingBuffer::new(rx_storage), RingBuffer::new(tx_storage))
}

/// `Socket::set_keep_alive` with an interval of whole seconds.
#[verifier::external_body]
pub(crate) fn tcp_set_keep_alive(socket: &mut TcpSocket<'static>, secs: u64)
    requires
        secs * MICROS_PER_SEC <= u64::MAX,
    ensures
        tcp_view(*final(socket)) == (TcpView {
            keep_alive: Some((secs * MICROS_PER_SEC) as nat),
            ..tcp_view(*old(socket))
        }),
{
    socket.set_keep_alive(Some(SmolDuration::from_secs(secs)))
}

/// `Socket::set_timeout` with a duration of whole seconds.
#[verifier::external_body]
pub(crate) fn tcp_set_timeout(socket: &mut TcpSocket<'static>, secs: u64)
    requires
        secs * MICROS_PER_SEC <= u64::MAX,
    ensures
        tcp_view(*final(socket)) == (TcpView {
            timeout: Some((secs * MICROS_PER_SEC) as nat),
            ..tcp_view(*old(socket))
        }),
{
    socket.set_timeout(Some(SmolDuration::from_secs(secs)))
}

/// `Socket::set_nagle_enabled`.
#[verifier::external_body]
pub(crate) fn tcp_set_nagle(socket: &mut TcpSocket<'static>, enabled: bool)
    ensures
        tcp_view(*final(socket)) == (TcpView { nagle: enabled, ..tcp_view(*old(socket)) }),
{
    socket.set_nagle_enabled(enabled)
}

/// `Socket::listen` on an address and a port, for a socket that is not open: it
/// fails, and changes nothing, exactly where the port is zero. Otherwise the
/// socket listens there, its buffers cleared and its settings kept.
#[verifier::external_body]
pub(crate) fn tcp_listen(socket: &mut TcpSocket<'static>, at: SocketAddr) -> (res: Result<
    (),
    ListenError,
>)
    requires
        !tcp_view(*old(socket)).is_open(),
    ensures
        res is Err <==> at.port_part() == 0,
        res is Err ==> tcp_view(*final(socket)) == tcp_view(*old(socket)),
        res is Ok ==> tcp_view(*final(socket)) == (TcpView {
            state: TcpState::Listen,
            rx: Seq::empty(),
            tx: Seq::empty(),
            listen_endpoint: Some((at.ip_part(), at.port_part())),
            ..tcp_view(*old(socket))
        }),
{
    match at {
        SocketAddr::V4(a) => socket.listen((IpAddress::Ipv4(Ipv4Address::from(a.ip)), a.port)),
        SocketAddr::V6(a) => socket.listen((IpAddress::Ipv6(Ipv6Address::from(a.ip)), a.port)),
    }
}

/// `Socket::state`.
#[verifier::external_body]
pub(crate) fn tcp_state(socket: &TcpSocket<'static>) -> (state: TcpState)
    ensures
        state == tcp_view(*socket).state,
{
    match socket.state() {
        SmolState::Closed => TcpState::Closed,
        SmolState::Listen => TcpState::Listen,
        SmolState::SynSent => TcpState::SynSent,
        SmolState::SynReceived => TcpState::SynReceived,
        SmolState::Established => TcpState::Established,
        SmolState::FinWait1 => TcpState::FinWait1,
        SmolState::FinWait2 => TcpState::FinWait2,
        SmolState::CloseWait => TcpState::CloseWait,
        SmolState::Closing => TcpState::Closing,
        SmolState::LastAck => TcpState::LastAck,
        SmolState::TimeWait => TcpState::TimeWait,
    }
}

/// `Socket::may_send`: the connection is established, or only its receive half
/// was closed by the peer.
#[verifier::external_body]
pub(crate) fn tcp_may_send(socket: &TcpSocket<'static>) -> (yes: bool)
    ensures
        yes == tcp_view(*socket).may_send(),
{
    socket.may_send()
}

/// `Socket::may_recv`: the peer can still send, or sent octets wait to be read.
#[verifier::external_body]
pub(crate) fn tcp_may_recv(socket: &TcpSocket<'static>) -> (yes: bool)
    ensures
        yes == tcp_view(*socket).may_recv(),
{
    socket.may_recv()
}

/// `Socket::can_send`: the transmit half is open and its buffer has room. The
/// buffer never holds more than it can.
#[verifier::external_body]
pub(crate) fn tcp_can_send(socket: &TcpSocket<'static>) -> (yes: bool)
    ensures
        yes ==> tcp_view(*socket).may_send(),
        yes ==> tcp_view(*socket).tx.len() < tcp_view(*socket).tx_capacity,
        !yes && tcp_view(*socket).may_send() ==> tcp_view(*socket).tx.len() == tcp_view(
            *socket,
        ).tx_capacity,
{
    socket.can_send()
}

/// `Socket::can_recv`: octets wait to be read.
#[verifier::external_body]
pub(crate) fn tcp_can_recv(socket: &TcpSocket<'static>) -> (yes: bool)
    ensures
        yes == (tcp_view(*socket).rx.len() > 0),
{
    socket.can_recv()
}

/// `Socket::close`: closes the transmit half, where it is open.
#[verifier::external_body]
pub(crate) fn tcp_close(socket: &mut TcpSocket<'static>)
    ensures
        tcp_view(*final(socket)) == tcp_view(*old(socket)).closed(),
{
    socket.close()
}

/// `Socket::abort`: moves the socket to the closed state at once.
#[verifier::external_body]
pub(crate) fn tcp_abort(socket: &mut TcpSocket<'static>)
    ensures
        tcp_view(*final(socket)) == (TcpView { state: TcpState::Closed, ..tcp_view(*old(socket)) }),
{
    socket.abort()
}

/// Appends received octets to a ring; the count is returned twice, as what the
/// socket is to drop and as what the caller learns.
fn store_received(ring: &mut RingBuffer<'static, u8>, data: &[u8]) -> (counts: (usize, usize))
    ensures
        counts.0 == counts.1,
        counts.0 == least(
            data@.len() as int,
            ring_capacity(*old(ring)) - ring_contents(*old(ring)).len(),
        ),
        ring_contents(*final(ring)) == ring_contents(*old(ring)) + data@.take(counts.0 as int),
        ring_capacity(*final(ring)) == ring_capacity(*old(ring)),
{
    let n: usize = ring_enqueue(ring, data);
    (n, n)
}

/// Moves octets of a ring to the front of a transmit window; the count is
/// returned twice, as what the socket is to add and as what the caller learns.
fn fetch_outgoing(ring: &mut RingBuffer<'static, u8>, window: &mut [u8]) -> (counts: (usize, usize))
    ensures
        counts.0 == counts.1,
        counts.0 == least(old(window)@.len() as int, ring_contents(*old(ring)).len() as int),
        final(window)@ == ring_contents(*old(ring)).take(counts.0 as int) + old(window)@.skip(
            counts.0 as int,
        ),
        ring_contents(*final(ring)) == ring_contents(*old(ring)).skip(counts.0 as int),
        ring_capacity(*final(ring)) == ring_capacity(*old(ring)),
{
    let n: usize = ring_dequeue(ring, window);
    (n, n)
}

/// `Socket::recv` with `store_received`: fails, and changes nothing, exactly where
/// the receive half is closed and nothing is left to read. Otherwise `store_received`
/// is given the first of the waiting octets, at least one where there is any, and
/// what it stored leaves the socket.
#[verifier::external_body]
pub(crate) fn tcp_recv(socket: &mut TcpSocket<'static>, ring: &mut RingBuffer<'static, u8>) -> (res:
    Result<usize, RecvError>)
    ensures
        res is Ok <==> tcp_view(*old(socket)).may_recv(),
        res is Err ==> tcp_view(*final(socket)) == tcp_view(*old(socket)) && *final(ring) == *old(
            ring,
        ),
        res matches Ok(n) ==> {
            let rx = tcp_view(*old(socket)).rx;
            let room = ring_capacity(*old(ring)) - ring_contents(*old(ring)).len();
            &&& n <= rx.len()
            &&& n <= room
            &&& rx.len() > 0 && room > 0 ==> n > 0
            &&& ring_contents(*final(ring)) == ring_contents(*old(ring)) + rx.take(n as int)
            &&& ring_capacity(*final(ring)) == ring_capacity(*old(ring))
            &&& tcp_view(*final(socket)) == (TcpView {
                rx: rx.skip(n as int),
                ..tcp_view(*old(socket))
            })
        },
{
    socket.recv(|data| store_received(ring, data))
}

/// `Socket::send` with `fetch_outgoing`: fails, and changes nothing, exactly where
/// the transmit half is closed. Otherwise `fetch_outgoing` is given a window of the
/// free space, of at least one octet where there is any, and what it wrote there
/// joins the octets to be sent.
#[verifier::external_body]
pub(crate) fn tcp_send(socket: &mut TcpSocket<'static>, ring: &mut RingBuffer<'static, u8>) -> (res:
    Result<usize, SendError>)
    ensures
        res is Ok <==> tcp_view(*old(socket)).may_send(),
        res is Err ==> tcp_view(*final(socket)) == tcp_view(*old(socket)) && *final(ring) == *old(
            ring,
        ),
        res matches Ok(n) ==> {
            let queued = ring_contents(*old(ring));
            let view = tcp_view(*old(socket));
            &&& n <= queued.len()
            &&& n <= view.tx_capacity - view.tx.len()
            &&& queued.len() > 0 && view.tx.len() < view.tx_capacity ==> n > 0
            &&& ring_contents(*final(ring)) == queued.skip(n as int)
            &&& ring_capacity(*final(ring)) == ring_capacity(*old(ring))
            &&& tcp_view(*final(socket)) == (TcpView {
                tx: view.tx + queued.take(n as int),
                ..view
            })
        },
{
    socket.send(|window| fetch_outgoing(ring, window))
}

} // verus!

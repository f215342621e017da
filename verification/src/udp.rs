//! UDP messages, and the IP packets that carry them.
use crate::addr::{address, lemma_address, IpAddr, IpVersion, SocketAddr};
use crate::packet::{be16, ip_parts, read_udp, udp_parts, AnyIpPktFrame, IpPacket};
use bytes::Bytes;
use etherparse::err::packet::BuildWriteError;
use etherparse::PacketBuilder;
use vstd::prelude::*;
use vstd::std_specs::convert::FromSpecImpl;
use vstd::string::StringExecFns;

verus! {

#[verifier::external_type_specification]
#[verifier::external_body]
pub struct ExBytes(Bytes);

#[verifier::external_type_specification]
#[verifier::external_body]
pub struct ExBuildWriteError(BuildWriteError);

#[verifier::external_type_specification]
#[verifier::external_body]
pub struct ExIoError(std::io::Error);

/// The octets of a `Bytes`.
pub uninterp spec fn bytes_contents(bytes: Bytes) -> Seq<u8>;

/// `Bytes::copy_from_slice`.
#[verifier::external_body]
fn bytes_copy(data: &[u8]) -> (bytes: Bytes)
    ensures
        bytes_contents(bytes) == data@,
{
    Bytes::copy_from_slice(data)
}

/// `Bytes::deref`: the octets as a slice.
#[verifier::external_body]
fn bytes_slice<'a>(bytes: &'a Bytes) -> (data: &'a [u8])
    ensures
        data@ == bytes_contents(*bytes),
{
    &**bytes
}

/// `Bytes::is_empty`.
#[verifier::external_body]
fn bytes_is_empty(bytes: &Bytes) -> (empty: bool)
    ensures
        empty == (bytes_contents(*bytes).len() == 0),
{
    bytes.is_empty()
}

/// How many hops a packet of the stack may take.
pub const HOPS: u8 = 20;

/// The most octets that a UDP message over IPv4 can carry.
pub const MAX_PAYLOAD_V4: usize = 65507;

/// The most octets that a UDP message over IPv6 can carry.
pub const MAX_PAYLOAD_V6: usize = 65527;

/// A UDP datagram in parts, with the addresses it goes between.
#[verifier::ext_equal]
pub struct Datagram {
    pub src: Seq<u8>,
    pub dst: Seq<u8>,
    pub hops: u8,
    pub src_port: u16,
    pub dst_port: u16,
    pub payload: Seq<u8>,
}

/// Whether a frame holds a UDP datagram from the octet `at` on.
pub open spec fn holds_udp(frame: Seq<u8>, at: int, datagram: Datagram) -> bool {
    &&& frame.len() == at + 8 + datagram.payload.len()
    &&& be16(frame, at) == datagram.src_port
    &&& be16(frame, at + 2) == datagram.dst_port
    &&& be16(frame, at + 4) == 8 + datagram.payload.len()
    &&& frame.skip(at + 8) == datagram.payload
}

/// Whether a frame is an unfragmented IPv4 packet without options that carries a
/// datagram. Nothing is said of the checksums.
pub open spec fn carries_v4(frame: Seq<u8>, datagram: Datagram) -> bool {
    &&& holds_udp(frame, 20, datagram)
    &&& frame.take(2) == seq![0x45u8, 0u8]
    &&& be16(frame, 2) == frame.len()
    &&& frame.subrange(4, 10) == seq![0u8, 0u8, 0x40u8, 0u8, datagram.hops, 17u8]
    &&& frame.subrange(12, 16) == datagram.src
    &&& frame.subrange(16, 20) == datagram.dst
}

/// Whether a frame is an IPv6 packet without extensions that carries a datagram.
/// Nothing is said of the checksum.
pub open spec fn carries_v6(frame: Seq<u8>, datagram: Datagram) -> bool {
    &&& holds_udp(frame, 40, datagram)
    &&& frame.take(4) == seq![0x60u8, 0u8, 0u8, 0u8]
    &&& be16(frame, 4) == frame.len() - 40
    &&& frame.subrange(6, 8) == seq![17u8, datagram.hops]
    &&& frame.subrange(8, 24) == datagram.src
    &&& frame.subrange(24, 40) == datagram.dst
}

/// The IPv4 packet that carries a datagram, with its checksums.
pub uninterp spec fn udp_over_ipv4(
    src: Seq<u8>,
    dst: Seq<u8>,
    hops: u8,
    src_port: u16,
    dst_port: u16,
    payload: Seq<u8>,
) -> Seq<u8>;

/// The IPv6 packet that carries a datagram, with its checksum.
pub uninterp spec fn udp_over_ipv6(
    src: Seq<u8>,
    dst: Seq<u8>,
    hops: u8,
    src_port: u16,
    dst_port: u16,
    payload: Seq<u8>,
) -> Seq<u8>;

/// `PacketBuilder::ipv4`, `udp` and `write`: the packet that carries the datagram.
/// It fails exactly where the payload is too long for the length field.
#[verifier::external_body]
fn write_ipv4(
    src: [u8; 4],
    dst: [u8; 4],
    hops: u8,
    src_port: u16,
    dst_port: u16,
    payload: &[u8],
) -> (res: Result<Vec<u8>, BuildWriteError>)
    ensures
        res is Ok <==> payload@.len() <= MAX_PAYLOAD_V4,
        res matches Ok(frame) ==> frame@ == udp_over_ipv4(
            src@,
            dst@,
            hops,
            src_port,
            dst_port,
            payload@,
        ),
        res matches Ok(frame) ==> carries_v4(
            frame@,
            (Datagram { src: src@, dst: dst@, hops, src_port, dst_port, payload: payload@ }),
        ),
{
    let mut frame = Vec::new();
    PacketBuilder::ipv4(src, dst, hops).udp(src_port, dst_port).write(&mut frame, payload)?;
    Ok(frame)
}

/// `PacketBuilder::ipv6`, `udp` and `write`: the packet that carries the datagram.
/// It fails exactly where the payload is too long for the length field.
#[verifier::external_body]
fn write_ipv6(
    src: [u8; 16],
    dst: [u8; 16],
    hops: u8,
    src_port: u16,
    dst_port: u16,
    payload: &[u8],
) -> (res: Result<Vec<u8>, BuildWriteError>)
    ensures
        res is Ok <==> payload@.len() <= MAX_PAYLOAD_V6,
        res matches Ok(frame) ==> frame@ == udp_over_ipv6(
            src@,
            dst@,
            hops,
            src_port,
            dst_port,
            payload@,
        ),
        res matches Ok(frame) ==> carries_v6(
            frame@,
            (Datagram { src: src@, dst: dst@, hops, src_port, dst_port, payload: payload@ }),
        ),
{
    let mut frame = Vec::new();
    PacketBuilder::ipv6(src, dst, hops).udp(src_port, dst_port).write(&mut frame, payload)?;
    Ok(frame)
}

/// A UDP message between the application's peer and the address it wrote to.
pub struct UdpMessage {
    pub payload: Bytes,
    pub local_addr: SocketAddr,
    pub remote_addr: SocketAddr,
}

/// What a UDP message holds.
#[verifier::ext_equal]
pub struct MessageView {
    pub payload: Seq<u8>,
    pub local: SocketAddr,
    pub remote: SocketAddr,
}

impl MessageView {
    /// The message in the other direction.
    pub open spec fn flipped(self) -> MessageView {
        MessageView { local: self.remote, remote: self.local, ..self }
    }
}

impl View for UdpMessage {
    type V = MessageView;

    open spec fn view(&self) -> MessageView {
        MessageView {
            payload: bytes_contents(self.payload),
            local: self.local_addr,
            remote: self.remote_addr,
        }
    }
}

impl UdpMessage {
    /// Swaps the two addresses, which turns the message round.
    pub fn flip(self) -> (message: UdpMessage)
        ensures
            message@ == self@.flipped(),
    {
        UdpMessage {
            payload: self.payload,
            local_addr: self.remote_addr,
            remote_addr: self.local_addr,
        }
    }
}

/// The message in a frame: a UDP datagram in an IP packet, whatever protocol number
/// the packet has. Its source is local, its destination is remote.
pub open spec fn message_in(frame: Seq<u8>) -> Option<MessageView> {
    match ip_parts(frame) {
        None => None,
        Some(parts) => match udp_parts(parts.payload) {
            None => None,
            Some(datagram) => Some(
                MessageView {
                    payload: datagram.payload,
                    local: SocketAddr::at(parts.src_addr(), datagram.src_port),
                    remote: SocketAddr::at(parts.dst_addr(), datagram.dst_port),
                },
            ),
        },
    }
}

/// A UDP socket could not do what it was asked for.
#[derive(Debug)]
pub enum UdpError {
    /// The two addresses of a message are of different versions.
    AddressTypeMismatch,
    /// The receiving end of the channel is gone.
    ChannelSendError,
    /// A packet could not be written.
    IoError(std::io::Error),
}

/// Whether the kind of an error is `ErrorKind::Other`.
pub uninterp spec fn is_other_error(error: std::io::Error) -> bool;

/// `std::io::Error::other`: an error of the kind `ErrorKind::Other`.
#[verifier::external_body]
fn other_error(error: BuildWriteError) -> (io: std::io::Error)
    ensures
        is_other_error(io),
{
    std::io::Error::other(error)
}

/// `std::io::Error::to_string`. Nothing is said of the text, which can depend on the
/// machine.
#[verifier::external_body]
fn io_error_text(error: &std::io::Error) -> (text: String) {
    format!("{}", error)
}

impl From<std::io::Error> for UdpError {
    fn from(error: std::io::Error) -> (res: UdpError) {
        UdpError::IoError(error)
    }
}

impl FromSpecImpl<std::io::Error> for UdpError {
    open spec fn obeys_from_spec() -> bool {
        true
    }

    open spec fn from_spec(error: std::io::Error) -> UdpError {
        UdpError::IoError(error)
    }
}

/// What is said of an error in the given words.
pub fn io_message(text: &str) -> (message: String)
    ensures
        message@ == "IO error: "@ + text@,
{
    let mut message = String::from_str("IO error: ");
    message.append(text);
    message
}

impl UdpError {
    /// What is said of the error.
    pub fn message(&self) -> (message: String)
        ensures
            match self {
                UdpError::AddressTypeMismatch => message@ == "Address type mismatch"@,
                UdpError::ChannelSendError => message@ == "Channel send error"@,
                UdpError::IoError(_) => exists|text: Seq<char>|
                    message@ == #[trigger] ("IO error: "@ + text),
            },
    {
        match self {
            UdpError::AddressTypeMismatch => String::from_str("Address type mismatch"),
            UdpError::ChannelSendError => String::from_str("Channel send error"),
            UdpError::IoError(error) => {
                let text = io_error_text(error);
                io_message(text.as_str())
            },
        }
    }
}

impl MessageView {
    /// Whether both addresses are of one version.
    pub open spec fn same_version(self) -> bool {
        self.local.ip_part().version() == self.remote.ip_part().version()
    }

    /// Whether one packet of the version of the addresses can carry the message.
    pub open spec fn fits(self) -> bool {
        match self.local {
            SocketAddr::V4(_) => self.payload.len() <= MAX_PAYLOAD_V4,
            SocketAddr::V6(_) => self.payload.len() <= MAX_PAYLOAD_V6,
        }
    }

    /// The packet that carries the message.
    pub open spec fn encoded(self) -> Seq<u8> {
        let src = self.local.ip_part().octets();
        let dst = self.remote.ip_part().octets();
        let src_port = self.local.port_part();
        let dst_port = self.remote.port_part();
        match self.local {
            SocketAddr::V4(_) => udp_over_ipv4(src, dst, HOPS, src_port, dst_port, self.payload),
            SocketAddr::V6(_) => udp_over_ipv6(src, dst, HOPS, src_port, dst_port, self.payload),
        }
    }

    /// The datagram that carries the message.
    pub open spec fn datagram(self) -> Datagram {
        Datagram {
            src: self.local.ip_part().octets(),
            dst: self.remote.ip_part().octets(),
            hops: HOPS,
            src_port: self.local.port_part(),
            dst_port: self.remote.port_part(),
            payload: self.payload,
        }
    }

    /// Whether a frame carries the message, in a packet of the version of its
    /// addresses.
    pub open spec fn carried_by(self, frame: Seq<u8>) -> bool {
        match self.local {
            SocketAddr::V4(_) => carries_v4(frame, self.datagram()),
            SocketAddr::V6(_) => carries_v6(frame, self.datagram()),
        }
    }

    /// The message without what no packet carries: the flow information and the
    /// scope of its addresses.
    pub open spec fn bare(self) -> MessageView {
        MessageView {
            local: SocketAddr::at(self.local.ip_part(), self.local.port_part()),
            remote: SocketAddr::at(self.remote.ip_part(), self.remote.port_part()),
            ..self
        }
    }
}

/// The application's end of the UDP traffic.
pub struct UdpSocket<R, S> {
    udp_rx: R,
    stack_tx: S,
}

/// The half of a `UdpSocket` that messages come out of.
pub struct ReadHalf<R> {
    pub udp_rx: R,
}

/// The half of a `UdpSocket` that messages go into.
pub struct WriteHalf<S> {
    pub stack_tx: S,
}

impl<R, S> UdpSocket<R, S> {
    /// Where the frames come from.
    pub closed spec fn source(self) -> R {
        self.udp_rx
    }

    /// Where the frames go.
    pub closed spec fn sink(self) -> S {
        self.stack_tx
    }

    /// A socket that gets its frames from `udp_rx` and hands frames to `stack_tx`.
    pub fn new(udp_rx: R, stack_tx: S) -> (socket: UdpSocket<R, S>)
        ensures
            socket.source() == udp_rx,
            socket.sink() == stack_tx,
    {
        UdpSocket { udp_rx, stack_tx }
    }

    /// Parts the two directions.
    pub fn split(self) -> (halves: (ReadHalf<R>, WriteHalf<S>))
        ensures
            halves.0.udp_rx == self.source(),
            halves.1.stack_tx == self.sink(),
    {
        (ReadHalf { udp_rx: self.udp_rx }, WriteHalf { stack_tx: self.stack_tx })
    }
}

/// What to do after a frame came, or no more will come.
pub enum ReadStep {
    /// Give out the message.
    Yield(UdpMessage),
    /// Wait for the next frame.
    Skip,
    /// There is nothing more to give out.
    End,
}

impl<R> ReadHalf<R> {
    /// Reads the message in a frame.
    pub fn process_frame_fast(frame: AnyIpPktFrame) -> (res: Option<UdpMessage>)
        ensures
            res is Some <==> message_in(frame@) is Some,
            res matches Some(message) ==> message_in(frame@) == Some(message@),
    {
        let packet = match IpPacket::new_checked(frame.as_slice()) {
            Ok(packet) => packet,
            Err(_) => return None,
        };
        let datagram = match read_udp(packet.payload()) {
            Ok(datagram) => datagram,
            Err(_) => return None,
        };
        let message = UdpMessage {
            payload: bytes_copy(datagram.body),
            local_addr: SocketAddr::new(packet.src_addr(), datagram.src_port),
            remote_addr: SocketAddr::new(packet.dst_addr(), datagram.dst_port),
        };
        Some(message)
    }

    /// Goes on after a frame came, or after the last one. A frame without a message
    /// is passed over.
    pub fn on_received(received: Option<AnyIpPktFrame>) -> (step: ReadStep)
        ensures
            match received {
                None => step is End,
                Some(frame) => match message_in(frame@) {
                    Some(view) => step matches ReadStep::Yield(message) && message@ == view,
                    None => step is Skip,
                },
            },
    {
        match received {
            Some(frame) => match ReadHalf::<R>::process_frame_fast(frame) {
                Some(message) => ReadStep::Yield(message),
                None => ReadStep::Skip,
            },
            None => ReadStep::End,
        }
    }
}

impl<S> WriteHalf<S> {
    /// Builds the packet that carries a message.
    pub fn build_packet(&self, message: &UdpMessage) -> (res: Result<Vec<u8>, UdpError>)
        ensures
            !message@.same_version() ==> res matches Err(UdpError::AddressTypeMismatch),
            message@.same_version() && !message@.fits() ==> (res matches Err(
                UdpError::IoError(error),
            ) && is_other_error(error)),
            message@.same_version() && message@.fits() ==> res is Ok,
            res matches Ok(frame) ==> {
                &&& frame@ == message@.encoded()
                &&& message@.carried_by(frame@)
                &&& message_in(frame@) == Some(message@.bare())
            },
    {
        let payload = bytes_slice(&message.payload);
        let written = match (message.local_addr, message.remote_addr) {
            (SocketAddr::V4(local), SocketAddr::V4(remote)) => {
                let written = write_ipv4(
                    local.ip,
                    remote.ip,
                    HOPS,
                    local.port,
                    remote.port,
                    payload,
                );
                proof {
                    if written is Ok {
                        let datagram = Datagram {
                            src: local.ip@,
                            dst: remote.ip@,
                            hops: HOPS,
                            src_port: local.port,
                            dst_port: remote.port,
                            payload: payload@,
                        };
                        law_ipv4_datagram_is_read_back(written->Ok_0@, datagram);
                        lemma_address(IpAddr::V4(local.ip));
                        lemma_address(IpAddr::V4(remote.ip));
                    }
                }
                written
            },
            (SocketAddr::V6(local), SocketAddr::V6(remote)) => {
                let written = write_ipv6(
                    local.ip,
                    remote.ip,
                    HOPS,
                    local.port,
                    remote.port,
                    payload,
                );
                proof {
                    if written is Ok {
                        let datagram = Datagram {
                            src: local.ip@,
                            dst: remote.ip@,
                            hops: HOPS,
                            src_port: local.port,
                            dst_port: remote.port,
                            payload: payload@,
                        };
                        law_ipv6_datagram_is_read_back(written->Ok_0@, datagram);
                        lemma_address(IpAddr::V6(local.ip));
                        lemma_address(IpAddr::V6(remote.ip));
                    }
                }
                written
            },
            _ => return Err(UdpError::AddressTypeMismatch),
        };
        match written {
            Ok(frame) => Ok(frame),
            Err(error) => Err(UdpError::IoError(other_error(error))),
        }
    }

    /// Decides what to hand on for a message: the packet that carries it, and
    /// nothing for a message without payload.
    pub fn start_send(&self, message: UdpMessage) -> (res: Result<Option<Vec<u8>>, UdpError>)
        ensures
            message@.payload.len() == 0 ==> res matches Ok(None),
            message@.payload.len() > 0 && !message@.same_version() ==> res matches Err(
                UdpError::AddressTypeMismatch,
            ),
            message@.payload.len() > 0 && message@.same_version() && !message@.fits() ==> (
            res matches Err(UdpError::IoError(error)) && is_other_error(error)),
            message@.payload.len() > 0 && message@.same_version() && message@.fits() ==> {
                &&& res matches Ok(Some(frame))
                &&& frame@ == message@.encoded()
                &&& message@.carried_by(frame@)
                &&& message_in(frame@) == Some(message@.bare())
            },
    {
        if bytes_is_empty(&message.payload) {
            return Ok(None);
        }
        match self.build_packet(&message) {
            Ok(frame) => Ok(Some(frame)),
            Err(error) => Err(error),
        }
    }
}

/// What comes of an operation on the channel to the stack.
pub fn channel_result(accepted: bool) -> (res: Result<(), UdpError>)
    ensures
        accepted ==> res is Ok,
        !accepted ==> res matches Err(UdpError::ChannelSendError),
{
    if accepted {
        Ok(())
    } else {
        Err(UdpError::ChannelSendError)
    }
}

/// Turning a message round twice gives it back, and never changes what it carries.
pub proof fn law_flip_is_its_own_inverse(message: MessageView)
    ensures
        message.flipped().flipped() == message,
        message.flipped().payload == message.payload,
{
}

/// A message and its reply go the same way: both can be carried, or neither.
pub proof fn law_flipped_message_can_be_carried(message: MessageView)
    ensures
        message.flipped().same_version() == message.same_version(),
        message.same_version() ==> message.flipped().fits() == message.fits(),
        message.flipped().bare() == message.bare().flipped(),
{
}

/// Reading an IPv4 packet that carries a datagram gives the datagram back.
pub proof fn law_ipv4_datagram_is_read_back(frame: Seq<u8>, datagram: Datagram)
    requires
        carries_v4(frame, datagram),
    ensures
        message_in(frame) == Some(
            MessageView {
                payload: datagram.payload,
                local: SocketAddr::at(address(IpVersion::V4, datagram.src), datagram.src_port),
                remote: SocketAddr::at(address(IpVersion::V4, datagram.dst), datagram.dst_port),
            },
        ),
{
    assert(frame[0] == frame.take(2)[0]);
    let body = frame.subrange(20, frame.len() as int);
    assert(ip_parts(frame) is Some && ip_parts(frame)->0.payload == body);
    assert(body[0] == frame[20] && body[1] == frame[21] && body[2] == frame[22] && body[3]
        == frame[23] && body[4] == frame[24] && body[5] == frame[25]);
    assert(body.subrange(8, body.len() as int) =~= frame.skip(28));
}

/// Reading an IPv6 packet that carries a datagram gives the datagram back.
pub proof fn law_ipv6_datagram_is_read_back(frame: Seq<u8>, datagram: Datagram)
    requires
        carries_v6(frame, datagram),
    ensures
        message_in(frame) == Some(
            MessageView {
                payload: datagram.payload,
                local: SocketAddr::at(address(IpVersion::V6, datagram.src), datagram.src_port),
                remote: SocketAddr::at(address(IpVersion::V6, datagram.dst), datagram.dst_port),
            },
        ),
{
    assert(frame[0] == frame.take(4)[0]);
    let body = frame.subrange(40, frame.len() as int);
    assert(ip_parts(frame) is Some && ip_parts(frame)->0.payload == body);
    assert(body[0] == frame[40] && body[1] == frame[41] && body[2] == frame[42] && body[3]
        == frame[43] && body[4] == frame[44] && body[5] == frame[45]);
    assert(body.subrange(8, body.len() as int) =~= frame.skip(48));
}

} // verus!

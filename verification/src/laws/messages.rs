//! Laws on UDP messages.
use crate::addr::SocketAddr;
use crate::laws::octets::{
    body_end, body_start, is_ipv4, is_ipv6, is_receiver, is_sender, lemma_ends, word,
};
use crate::packet::{ip_parts, AnyIpPktFrame};
use crate::udp::{
    bytes_contents, channel_result, io_message, message_in, ReadHalf, ReadStep, UdpError,
    UdpMessage, UdpSocket, WriteHalf,
};
use vstd::prelude::*;

verus! {

/// Whether a UDP header that fits begins where what a packet carries begins.
pub open spec fn carries_datagram(frame: Seq<u8>) -> bool {
    let at = body_start(frame);
    let room = body_end(frame) - at;
    room >= 8 && 8 <= word(frame, at + 4) <= room
}

/// Whether a message is the one in a frame: its payload is what follows the UDP
/// header, as long as that says, and its ends are those of the packet.
pub open spec fn is_message_of(frame: Seq<u8>, message: UdpMessage) -> bool {
    let at = body_start(frame);
    &&& bytes_contents(message.payload) == frame.subrange(at + 8, at + word(frame, at + 4))
    &&& is_sender(message.local_addr, frame, word(frame, at))
    &&& is_receiver(message.remote_addr, frame, word(frame, at + 2))
}

/// What the octets of a frame say of the message in it.
proof fn lemma_message_in(frame: Seq<u8>)
    ensures
        message_in(frame) is Some <==> (is_ipv4(frame) || is_ipv6(frame)) && carries_datagram(
            frame,
        ),
        message_in(frame) matches Some(message) ==> {
            let at = body_start(frame);
            &&& message.payload == frame.subrange(at + 8, at + word(frame, at + 4))
            &&& is_sender(message.local, frame, word(frame, at))
            &&& is_receiver(message.remote, frame, word(frame, at + 2))
        },
{
    if is_ipv4(frame) || is_ipv6(frame) {
        lemma_ends(frame);
        let parts = ip_parts(frame)->0;
        let at = body_start(frame);
        assert(parts.payload =~= frame.subrange(at, body_end(frame)));
        if body_end(frame) - at >= 8 {
            assert(parts.payload[0] == frame[at] && parts.payload[1] == frame[at + 1]);
            assert(parts.payload[2] == frame[at + 2] && parts.payload[3] == frame[at + 3]);
            assert(parts.payload[4] == frame[at + 4] && parts.payload[5] == frame[at + 5]);
        }
        if carries_datagram(frame) {
            let len = word(frame, at + 4);
            assert(parts.payload.subrange(8, len) =~= frame.subrange(at + 8, at + len));
        }
    }
}

/// A message is given for every packet of either version that carries a UDP datagram
/// that fits, whatever else is in its header, and for nothing else.
pub proof fn law_every_datagram_is_read<R>(frame: AnyIpPktFrame, res: Option<UdpMessage>)
    requires
        call_ensures(ReadHalf::<R>::process_frame_fast, (frame,), res),
    ensures
        res is Some <==> (is_ipv4(frame@) || is_ipv6(frame@)) && carries_datagram(frame@),
        res matches Some(message) ==> is_message_of(frame@, message),
{
    lemma_message_in(frame@);
}

/// Every message that comes is given out, a frame without one is passed over, and
/// the end comes when no frame does.
pub proof fn law_every_message_is_given_out<R>(received: Option<AnyIpPktFrame>, step: ReadStep)
    requires
        call_ensures(ReadHalf::<R>::on_received, (received,), step),
    ensures
        step is End <==> received is None,
        step is Yield <==> (received matches Some(frame) && (is_ipv4(frame@) || is_ipv6(frame@))
            && carries_datagram(frame@)),
        step matches ReadStep::Yield(message) ==> received is Some && is_message_of(
            received->0@,
            message,
        ),
{
    if received is Some {
        lemma_message_in(received->0@);
    }
}

/// Whether a frame is the IPv4 packet of the stack that carries a message.
pub open spec fn is_packet_v4(frame: Seq<u8>, message: UdpMessage) -> bool {
    let payload = bytes_contents(message.payload);
    &&& message.local_addr matches SocketAddr::V4(local)
    &&& message.remote_addr matches SocketAddr::V4(remote)
    &&& frame.len() == 28 + payload.len()
    &&& frame[0] == 0x45
    &&& frame[1] == 0
    &&& word(frame, 2) == frame.len()
    &&& word(frame, 4) == 0
    &&& frame[6] == 0x40
    &&& frame[7] == 0
    &&& frame[8] == 20
    &&& frame[9] == 17
    &&& forall|i: int| 0 <= i < 4 ==> #[trigger] local.ip@[i] == frame[12 + i]
    &&& forall|i: int| 0 <= i < 4 ==> #[trigger] remote.ip@[i] == frame[16 + i]
    &&& word(frame, 20) == local.port
    &&& word(frame, 22) == remote.port
    &&& word(frame, 24) == 8 + payload.len()
    &&& forall|i: int| 0 <= i < payload.len() ==> #[trigger] payload[i] == frame[28 + i]
}

/// Whether a frame is the IPv6 packet of the stack that carries a message.
pub open spec fn is_packet_v6(frame: Seq<u8>, message: UdpMessage) -> bool {
    let payload = bytes_contents(message.payload);
    &&& message.local_addr matches SocketAddr::V6(local)
    &&& message.remote_addr matches SocketAddr::V6(remote)
    &&& frame.len() == 48 + payload.len()
    &&& frame[0] == 0x60
    &&& frame[1] == 0
    &&& word(frame, 2) == 0
    &&& word(frame, 4) == 8 + payload.len()
    &&& frame[6] == 17
    &&& frame[7] == 20
    &&& forall|i: int| 0 <= i < 16 ==> #[trigger] local.ip@[i] == frame[8 + i]
    &&& forall|i: int| 0 <= i < 16 ==> #[trigger] remote.ip@[i] == frame[24 + i]
    &&& word(frame, 40) == local.port
    &&& word(frame, 42) == remote.port
    &&& word(frame, 44) == 8 + payload.len()
    &&& forall|i: int| 0 <= i < payload.len() ==> #[trigger] payload[i] == frame[48 + i]
}

/// Whether one packet can carry a message: its ends are of one version, and its
/// payload is not too long for that version.
pub open spec fn can_be_sent(message: UdpMessage) -> bool {
    let len = bytes_contents(message.payload).len();
    match (message.local_addr, message.remote_addr) {
        (SocketAddr::V4(_), SocketAddr::V4(_)) => len <= 65507,
        (SocketAddr::V6(_), SocketAddr::V6(_)) => len <= 65527,
        _ => false,
    }
}

/// Whether the ends of a message are of different versions.
pub open spec fn is_mixed(message: UdpMessage) -> bool {
    (message.local_addr is V4) != (message.remote_addr is V4)
}

/// Every message that one packet can carry is put into one, with its ends, ports and
/// payload at their places, and every other is refused: because its ends do not go
/// together, or else because it is too long.
pub proof fn law_every_message_gets_its_packet<S>(
    half: WriteHalf<S>,
    message: UdpMessage,
    res: Result<Vec<u8>, UdpError>,
)
    requires
        call_ensures(WriteHalf::<S>::build_packet, (&half, &message), res),
    ensures
        res is Ok <==> can_be_sent(message),
        res matches Ok(frame) ==> is_packet_v4(frame@, message) || is_packet_v6(frame@, message),
        (res matches Err(UdpError::AddressTypeMismatch)) <==> is_mixed(message),
        (res matches Err(UdpError::IoError(_))) <==> !is_mixed(message) && !can_be_sent(message),
{
    if res is Ok {
        lemma_layout(res->Ok_0@, message);
    }
}

/// What the octets of a packet are where it carries a message.
proof fn lemma_layout(frame: Seq<u8>, message: UdpMessage)
    requires
        message@.carried_by(frame),
        !is_mixed(message),
    ensures
        is_packet_v4(frame, message) || is_packet_v6(frame, message),
{
    let payload = bytes_contents(message.payload);
    match message.local_addr {
        SocketAddr::V4(local) => {
            let head = frame.take(2);
            assert(head[0] == frame[0] && head[1] == frame[1]);
            let rest = frame.subrange(4, 10);
            assert(rest[0] == frame[4] && rest[1] == frame[5] && rest[2] == frame[6]);
            assert(rest[3] == frame[7] && rest[4] == frame[8] && rest[5] == frame[9]);
            let src = frame.subrange(12, 16);
            let dst = frame.subrange(16, 20);
            assert(forall|i: int| 0 <= i < 4 ==> #[trigger] src[i] == frame[12 + i]);
            assert(forall|i: int| 0 <= i < 4 ==> #[trigger] dst[i] == frame[16 + i]);
            let body = frame.skip(28);
            assert(forall|i: int| 0 <= i < payload.len() ==> #[trigger] body[i] == frame[28 + i]);
        },
        SocketAddr::V6(local) => {
            let head = frame.take(4);
            assert(head[0] == frame[0] && head[1] == frame[1]);
            assert(head[2] == frame[2] && head[3] == frame[3]);
            let rest = frame.subrange(6, 8);
            assert(rest[0] == frame[6] && rest[1] == frame[7]);
            let src = frame.subrange(8, 24);
            let dst = frame.subrange(24, 40);
            assert(forall|i: int| 0 <= i < 16 ==> #[trigger] src[i] == frame[8 + i]);
            assert(forall|i: int| 0 <= i < 16 ==> #[trigger] dst[i] == frame[24 + i]);
            let body = frame.skip(48);
            assert(forall|i: int| 0 <= i < payload.len() ==> #[trigger] body[i] == frame[48 + i]);
        },
    }
}

/// A message without payload is passed over, and every other goes the way of its
/// packet: it is sent where one packet can carry it, and otherwise refused.
pub proof fn law_every_message_is_sent<S>(
    half: WriteHalf<S>,
    message: UdpMessage,
    res: Result<Option<Vec<u8>>, UdpError>,
)
    requires
        call_ensures(WriteHalf::<S>::start_send, (&half, message), res),
    ensures
        (res matches Ok(None)) <==> bytes_contents(message.payload).len() == 0,
        bytes_contents(message.payload).len() > 0 ==> (res is Ok <==> can_be_sent(message)),
        res matches Ok(Some(frame)) ==> is_packet_v4(frame@, message) || is_packet_v6(
            frame@,
            message,
        ),
        (res matches Err(UdpError::AddressTypeMismatch)) <==> bytes_contents(message.payload).len()
            > 0 && is_mixed(message),
        (res matches Err(UdpError::IoError(_))) <==> bytes_contents(message.payload).len() > 0
            && !is_mixed(message) && !can_be_sent(message),
{
    if res is Ok && res->Ok_0 is Some {
        lemma_layout(res->Ok_0->0@, message);
    }
}

/// Turning a message round swaps its ends and keeps what it carries.
pub proof fn law_flipped_message_goes_back(message: UdpMessage, flipped: UdpMessage)
    requires
        call_ensures(UdpMessage::flip, (message,), flipped),
    ensures
        flipped.local_addr == message.remote_addr,
        flipped.remote_addr == message.local_addr,
        bytes_contents(flipped.payload) == bytes_contents(message.payload),
{
}

/// The halves of a socket get its two ends.
pub proof fn law_halves_get_the_ends<R, S>(
    udp_rx: R,
    stack_tx: S,
    socket: UdpSocket<R, S>,
    halves: (ReadHalf<R>, WriteHalf<S>),
)
    requires
        call_ensures(UdpSocket::<R, S>::new, (udp_rx, stack_tx), socket),
        call_ensures(UdpSocket::<R, S>::split, (socket,), halves),
    ensures
        halves.0.udp_rx == udp_rx,
        halves.1.stack_tx == stack_tx,
{
}

/// A message that the channel does not take is an error of the channel, and only
/// that is.
pub proof fn law_gone_channel_is_told(accepted: bool, res: Result<(), UdpError>)
    requires
        call_ensures(channel_result, (accepted,), res),
    ensures
        accepted <==> res is Ok,
        !accepted <==> (res matches Err(UdpError::ChannelSendError)),
{
}

/// Every error says what it is.
pub proof fn law_errors_say_what_they_are(error: UdpError, message: String)
    requires
        call_ensures(UdpError::message, (&error,), message),
    ensures
        error is AddressTypeMismatch ==> message@ == "Address type mismatch"@,
        error is ChannelSendError ==> message@ == "Channel send error"@,
        error is IoError ==> "IO error: "@.is_prefix_of(message@),
{
    if error is IoError {
        let text = choose|text: Seq<char>| message@ == #[trigger] ("IO error: "@ + text);
        assert(message@.subrange(0, "IO error: "@.len() as int) =~= "IO error: "@);
    }
}

/// What is said of an error behind the words that tell its kind is what the error
/// says.
pub proof fn law_io_error_is_told_whole(text: &str, message: String)
    requires
        call_ensures(io_message, (text,), message),
    ensures
        message@ == "IO error: "@ + text@,
{
}

} // verus!

//! UDP messages and the packets that carry them.
use bytes::Bytes;
use netstack::addr::{IpAddr, SocketAddr, SocketAddrV6};
use netstack::udp::{
    channel_result, io_message, ReadHalf, ReadStep, UdpError, UdpMessage, UdpSocket, WriteHalf,
    MAX_PAYLOAD_V4, MAX_PAYLOAD_V6,
};

fn a4() -> SocketAddr {
    SocketAddr::new(IpAddr::V4([192, 168, 1, 2]), 0x1234)
}

fn b4() -> SocketAddr {
    SocketAddr::new(IpAddr::V4([8, 8, 4, 4]), 53)
}

fn v6(last: u8, port: u16) -> SocketAddr {
    let mut ip = [0u8; 16];
    ip[0] = 0xfd;
    ip[15] = last;
    SocketAddr::new(IpAddr::V6(ip), port)
}

fn message(payload: &[u8], local_addr: SocketAddr, remote_addr: SocketAddr) -> UdpMessage {
    UdpMessage {
        payload: Bytes::copy_from_slice(payload),
        local_addr,
        remote_addr,
    }
}

fn half() -> WriteHalf<()> {
    WriteHalf { stack_tx: () }
}

fn sum16(octets: &[u8]) -> u16 {
    let mut sum: u32 = 0;
    for pair in octets.chunks(2) {
        sum += u32::from(pair[0]) << 8;
        if pair.len() == 2 {
            sum += u32::from(pair[1]);
        }
    }
    while sum > 0xffff {
        sum = (sum & 0xffff) + (sum >> 16);
    }
    sum as u16
}

#[test]
fn flipping_swaps_the_ends() {
    let flipped = message(b"hi", a4(), b4()).flip();
    assert_eq!(flipped.local_addr, b4());
    assert_eq!(flipped.remote_addr, a4());
    assert_eq!(&flipped.payload[..], b"hi");
    let back = flipped.flip();
    assert_eq!(back.local_addr, a4());
    assert_eq!(back.remote_addr, b4());
}

#[test]
fn an_ipv4_packet_has_this_layout() {
    let frame = half().build_packet(&message(b"abc", a4(), b4())).unwrap();
    assert_eq!(
        &frame[..10],
        &[0x45, 0, 0, 31, 0, 0, 0x40, 0, 20, 17]
    );
    assert_eq!(&frame[12..20], &[192, 168, 1, 2, 8, 8, 4, 4]);
    assert_eq!(&frame[20..26], &[0x12, 0x34, 0, 53, 0, 11]);
    assert_eq!(&frame[28..], b"abc");
    assert_eq!(sum16(&frame[..20]), 0xffff);
    let mut pseudo = frame[12..20].to_vec();
    pseudo.extend_from_slice(&[0, 17, 0, 11]);
    pseudo.extend_from_slice(&frame[20..]);
    assert_eq!(sum16(&pseudo), 0xffff);
}

#[test]
fn an_ipv6_packet_has_this_layout() {
    let frame = half()
        .build_packet(&message(b"abcd", v6(1, 0x1234), v6(2, 53)))
        .unwrap();
    assert_eq!(&frame[..8], &[0x60, 0, 0, 0, 0, 12, 17, 20]);
    assert_eq!((frame[8], frame[23], frame[24], frame[39]), (0xfd, 1, 0xfd, 2));
    assert_eq!(&frame[40..46], &[0x12, 0x34, 0, 53, 0, 12]);
    assert_eq!(&frame[48..], b"abcd");
    let mut pseudo = frame[8..40].to_vec();
    pseudo.extend_from_slice(&[0, 17, 0, 12]);
    pseudo.extend_from_slice(&frame[40..]);
    assert_eq!(sum16(&pseudo), 0xffff);
}

#[test]
fn a_message_is_read_back() {
    for (local, remote) in [(a4(), b4()), (v6(1, 5), v6(2, 65535))] {
        let frame = half()
            .start_send(message(b"payload", local, remote))
            .unwrap()
            .unwrap();
        let read = ReadHalf::<()>::process_frame_fast(frame).unwrap();
        assert_eq!(&read.payload[..], b"payload");
        assert_eq!(read.local_addr, local);
        assert_eq!(read.remote_addr, remote);
    }
}

#[test]
fn flow_information_and_scope_are_not_carried() {
    let mut ip = [0u8; 16];
    ip[15] = 9;
    let local = SocketAddr::V6(SocketAddrV6 {
        ip,
        port: 7,
        flowinfo: 3,
        scope_id: 4,
    });
    let frame = half().build_packet(&message(b"x", local, v6(2, 8))).unwrap();
    let read = ReadHalf::<()>::process_frame_fast(frame).unwrap();
    assert_eq!(read.local_addr, SocketAddr::new(IpAddr::V6(ip), 7));
}

#[test]
fn mixed_addresses_are_refused() {
    for (local, remote) in [(a4(), v6(2, 8)), (v6(2, 8), a4())] {
        let error = half()
            .start_send(message(b"x", local, remote))
            .err()
            .unwrap();
        assert!(matches!(error, UdpError::AddressTypeMismatch));
        assert_eq!(error.message(), "Address type mismatch");
    }
}

#[test]
fn a_message_without_payload_is_not_sent() {
    assert!(half().start_send(message(b"", a4(), b4())).unwrap().is_none());
    assert!(half()
        .start_send(message(b"", a4(), v6(1, 1)))
        .unwrap()
        .is_none());
    let frame = half().build_packet(&message(b"", a4(), b4())).unwrap();
    assert_eq!(frame.len(), 28);
}

#[test]
fn a_payload_can_be_too_long() {
    let fits = vec![1u8; MAX_PAYLOAD_V4];
    let frame = half().build_packet(&message(&fits, a4(), b4())).unwrap();
    assert_eq!(frame.len(), 65535);
    let too_long = vec![1u8; MAX_PAYLOAD_V4 + 1];
    let error = half()
        .build_packet(&message(&too_long, a4(), b4()))
        .err()
        .unwrap();
    assert!(error.message().starts_with("IO error: "));
    match error {
        UdpError::IoError(io) => assert_eq!(io.kind(), std::io::ErrorKind::Other),
        other => panic!("unexpected error {:?}", other),
    }

    let fits = vec![1u8; MAX_PAYLOAD_V6];
    let frame = half()
        .build_packet(&message(&fits, v6(1, 1), v6(2, 2)))
        .unwrap();
    assert_eq!(frame.len(), 40 + 65535);
    let read = ReadHalf::<()>::process_frame_fast(frame).unwrap();
    assert_eq!(read.payload.len(), MAX_PAYLOAD_V6);
    let too_long = vec![1u8; MAX_PAYLOAD_V6 + 1];
    assert!(half()
        .build_packet(&message(&too_long, v6(1, 1), v6(2, 2)))
        .is_err());
}

#[test]
fn frames_without_a_message_are_passed_over() {
    let frame = half().build_packet(&message(b"abc", a4(), b4())).unwrap();
    let mut short = frame.clone();
    short[25] = 7;
    let mut long = frame.clone();
    long[25] = 12;
    for bad in [short, long, vec![], vec![0x45; 30]] {
        assert!(matches!(
            ReadHalf::<()>::on_received(Some(bad)),
            ReadStep::Skip
        ));
    }
    match ReadHalf::<()>::on_received(Some(frame)) {
        ReadStep::Yield(read) => assert_eq!(&read.payload[..], b"abc"),
        _ => panic!("there is a message"),
    }
    assert!(matches!(ReadHalf::<()>::on_received(None), ReadStep::End));
}

#[test]
fn a_shorter_udp_length_cuts_the_payload() {
    let mut frame = half().build_packet(&message(b"abc", a4(), b4())).unwrap();
    frame[25] = 10;
    let read = ReadHalf::<()>::process_frame_fast(frame).unwrap();
    assert_eq!(&read.payload[..], b"ab");
}

#[test]
fn a_socket_is_split() {
    let (read, write) = UdpSocket::new("in", "out").split();
    assert_eq!(read.udp_rx, "in");
    assert_eq!(write.stack_tx, "out");
}

#[test]
fn a_gone_channel_is_reported() {
    assert!(channel_result(true).is_ok());
    let error = channel_result(false).err().unwrap();
    assert!(matches!(error, UdpError::ChannelSendError));
    assert_eq!(error.message(), "Channel send error");
}

#[test]
fn io_errors_are_wrapped() {
    let error = UdpError::from(std::io::Error::new(std::io::ErrorKind::Other, "disk on fire"));
    assert_eq!(error.message(), "IO error: disk on fire");
    assert_eq!(io_message("x"), "IO error: x");
}

#[test]
fn a_packet_has_these_octets() {
    let local = SocketAddr::new(IpAddr::V4([10, 0, 0, 1]), 5000);
    let remote = SocketAddr::new(IpAddr::V4([10, 0, 0, 2]), 6000);
    let frame = half().build_packet(&message(b"abc", local, remote)).unwrap();
    assert_eq!(frame.len(), 31);
    assert_eq!(frame[0], 0x45);
    assert_eq!(&frame[2..4], &[0, 31]);
    assert_eq!((frame[8], frame[9]), (20, 17));
    assert_eq!(&frame[12..20], &[10, 0, 0, 1, 10, 0, 0, 2]);
    assert_eq!(
        &frame[20..],
        &[0x13, 0x88, 0x17, 0x70, 0, 11, 0xfc, 0x7a, b'a', b'b', b'c']
    );
}

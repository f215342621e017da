//! The front of the stack.
use netstack::addr::IpAddr;
use netstack::device::{capabilities, ChecksumUse, DeviceMedium};
use netstack::error::{ErrorKind, NetError};
use netstack::filter::{single_host, IpFilter, IpFilters};
use netstack::packet::{IpPacket, IpProtocol};
use netstack::relay::{CopyAction, CopyEvent, OnError};
use netstack::stack::{
    on_flushed, on_sent, queue_of, Channel, ChannelPlan, Queue, Reservation, SendStep, Stack,
    StackBuilder,
};
use std::time::Duration;

type Rule = Box<dyn Fn(&IpAddr, &IpAddr) -> bool + Send + Sync>;

fn v4(src: [u8; 4], dst: [u8; 4], protocol: u8, payload: &[u8]) -> Vec<u8> {
    let len = 20 + payload.len();
    let mut frame = vec![0x45, 0, (len >> 8) as u8, len as u8, 0, 0, 0x40, 0, 64, protocol, 0, 0];
    frame.extend_from_slice(&src);
    frame.extend_from_slice(&dst);
    frame.extend_from_slice(payload);
    frame
}

fn v6(src: [u8; 16], dst: [u8; 16], next_header: u8, payload: &[u8]) -> Vec<u8> {
    let len = payload.len();
    let mut frame = vec![0x60, 0, 0, 0, (len >> 8) as u8, len as u8, next_header, 64];
    frame.extend_from_slice(&src);
    frame.extend_from_slice(&dst);
    frame.extend_from_slice(payload);
    frame
}

const A: [u8; 4] = [10, 0, 0, 1];
const B: [u8; 4] = [10, 0, 0, 2];

fn all_on() -> Stack<Rule> {
    StackBuilder::default()
        .enable_udp(true)
        .enable_tcp(true)
        .enable_icmp(true)
        .build()
        .unwrap()
}

fn route(stack: &mut Stack<Rule>, frame: Vec<u8>) -> Option<(Channel, Vec<u8>)> {
    stack.start_send(frame).unwrap();
    stack
        .begin_send()
        .map(|delivery| (delivery.channel, delivery.frame))
}

#[test]
fn a_builder_starts_with_everything_off() {
    let builder: StackBuilder<Rule> = StackBuilder::default();
    assert_eq!(
        builder.channels(),
        ChannelPlan {
            stack: 1024,
            udp: None,
            tcp: None,
            icmp: false,
        }
    );
    let mut stack = builder.build().unwrap();
    assert!(!stack.has_pending());
    assert!(route(&mut stack, v4(A, B, 17, b"datagram")).is_none());
    assert!(!stack.has_pending());
}

#[test]
fn a_builder_keeps_the_sizes() {
    let builder: StackBuilder<Rule> = StackBuilder::default()
        .stack_buffer_size(1)
        .udp_buffer_size(2)
        .tcp_buffer_size(3)
        .enable_udp(true)
        .enable_tcp(true)
        .enable_icmp(true);
    assert_eq!(
        builder.channels(),
        ChannelPlan {
            stack: 1,
            udp: Some(2),
            tcp: Some(3),
            icmp: true,
        }
    );
}

#[test]
fn icmp_requires_tcp() {
    let builder: StackBuilder<Rule> = StackBuilder::default().enable_icmp(true).enable_udp(true);
    let error = builder.build().err().unwrap();
    assert_eq!(error, NetError::IcmpRequiresTcp);
    assert_eq!(error.kind(), ErrorKind::InvalidInput);
    assert_eq!(error.message(), Some("ICMP requires TCP"));
}

#[test]
fn every_error_has_its_kind_and_text() {
    assert_eq!(NetError::InvalidPacket.kind(), ErrorKind::InvalidInput);
    assert_eq!(
        NetError::InvalidPacket.message(),
        Some("invalid IP packet: wire::Error")
    );
    assert_eq!(NetError::ChannelClosed.kind(), ErrorKind::BrokenPipe);
    assert_eq!(NetError::ChannelClosed.message(), Some("channel is closed"));
    assert_eq!(NetError::ListenFailed.kind(), ErrorKind::ConnectionRefused);
    assert_eq!(NetError::ListenFailed.message(), None);
    assert_eq!(NetError::RouteTableFull.kind(), ErrorKind::AddrNotAvailable);
    assert_eq!(NetError::RouteTableFull.message(), Some("Route table full"));
}

#[test]
fn packets_go_to_the_channel_of_their_protocol() {
    let mut stack = all_on();
    let tcp = v4(A, B, 6, b"segment");
    let udp = v4(A, B, 17, b"datagram");
    let icmp = v4(A, B, 1, b"echo");
    assert_eq!(route(&mut stack, tcp.clone()), Some((Channel::Tcp, tcp)));
    assert_eq!(route(&mut stack, udp.clone()), Some((Channel::Udp, udp)));
    assert_eq!(route(&mut stack, icmp.clone()), Some((Channel::Icmp, icmp)));
    let mut src = [0u8; 16];
    src[15] = 1;
    let mut dst = [0u8; 16];
    dst[15] = 2;
    let icmpv6 = v6(src, dst, 58, b"echo");
    assert_eq!(
        route(&mut stack, icmpv6.clone()),
        Some((Channel::Icmp, icmpv6))
    );
}

#[test]
fn other_protocols_and_empty_frames_are_ignored() {
    let mut stack = all_on();
    stack.start_send(v4(A, B, 47, b"tunnel")).unwrap();
    assert!(!stack.has_pending());
    stack.start_send(Vec::new()).unwrap();
    assert!(!stack.has_pending());
    assert!(stack.begin_send().is_none());
}

#[test]
fn an_ignored_packet_does_not_displace_the_one_that_waits() {
    let mut stack = all_on();
    let first = v4(A, B, 6, b"segment");
    stack.start_send(first.clone()).unwrap();
    stack.start_send(v4(A, B, 47, b"tunnel")).unwrap();
    stack.start_send(vec![0x10]).unwrap_err();
    assert_eq!(stack.begin_send().unwrap().frame, first);
}

#[test]
fn what_is_no_packet_is_refused() {
    let mut stack = all_on();
    let mut too_long = v4(A, B, 6, b"segment");
    too_long[3] += 1;
    for frame in [
        vec![0x45],
        vec![0x10; 40],
        too_long,
        v6([1; 16], [2; 16], 17, b"x")[..40].to_vec(),
    ] {
        assert_eq!(stack.start_send(frame), Err(NetError::InvalidPacket));
        assert!(!stack.has_pending());
    }
}

#[test]
fn only_packets_between_single_hosts_pass_by_default() {
    let mut stack = all_on();
    for (src, dst) in [
        (A, [255, 255, 255, 255]),
        (A, [224, 0, 0, 1]),
        (A, [239, 255, 255, 255]),
        (A, [0, 0, 0, 0]),
        ([0, 0, 0, 0], B),
    ] {
        stack.start_send(v4(src, dst, 17, b"datagram")).unwrap();
        assert!(!stack.has_pending());
    }
    stack.start_send(v4(A, [240, 0, 0, 1], 17, b"datagram")).unwrap();
    assert!(stack.has_pending());
}

#[test]
fn single_hosts_are_told_apart() {
    assert!(single_host(&IpAddr::V4([127, 0, 0, 1])));
    assert!(single_host(&IpAddr::V4([255, 255, 255, 254])));
    assert!(!single_host(&IpAddr::V4([225, 1, 2, 3])));
    assert!(!single_host(&IpAddr::V6([0; 16])));
    let mut multicast = [0u8; 16];
    multicast[0] = 0xff;
    assert!(!single_host(&IpAddr::V6(multicast)));
    let mut loopback = [0u8; 16];
    loopback[15] = 1;
    assert!(single_host(&IpAddr::V6(loopback)));
}

#[test]
fn every_rule_has_to_allow_a_packet() {
    let mut stack = StackBuilder::<Rule>::default()
        .enable_udp(true)
        .add_ip_filter_fn(Box::new(|src: &IpAddr, _: &IpAddr| {
            *src == IpAddr::V4([10, 0, 0, 1])
        }))
        .build()
        .unwrap();
    stack.start_send(v4(B, A, 17, b"datagram")).unwrap();
    assert!(!stack.has_pending());
    stack.start_send(v4(A, [255; 4], 17, b"datagram")).unwrap();
    assert!(!stack.has_pending());
    stack.start_send(v4(A, B, 17, b"datagram")).unwrap();
    assert!(stack.has_pending());
}

#[test]
fn rules_can_be_replaced() {
    let none: IpFilters<Rule> = IpFilters::new(Vec::new());
    let mut stack = StackBuilder::default()
        .enable_udp(true)
        .set_ip_filters(none)
        .build()
        .unwrap();
    stack.start_send(v4(A, [255; 4], 17, b"datagram")).unwrap();
    assert!(stack.has_pending());

    let refuse: Rule = Box::new(|_: &IpAddr, _: &IpAddr| false);
    let mut stack = StackBuilder::default()
        .enable_udp(true)
        .set_ip_filters(IpFilters::new(Vec::new()))
        .add_ip_filter(IpFilter::Custom(refuse))
        .build()
        .unwrap();
    stack.start_send(v4(A, B, 17, b"datagram")).unwrap();
    assert!(!stack.has_pending());
}

#[test]
fn rules_are_asked_about_source_and_destination() {
    let mut filters: IpFilters<Rule> = IpFilters::with_non_broadcast();
    filters.add_fn(Box::new(|src: &IpAddr, dst: &IpAddr| {
        *src == IpAddr::V4([10, 0, 0, 1]) && *dst == IpAddr::V4([10, 0, 0, 2])
    }));
    filters.add(IpFilter::NonBroadcast);
    assert!(filters.is_allowed(&IpAddr::V4(A), &IpAddr::V4(B)));
    assert!(!filters.is_allowed(&IpAddr::V4(B), &IpAddr::V4(A)));
}

#[test]
fn the_answer_of_the_filter_decides() {
    let mut stack = all_on();
    stack.give(b"x".to_vec(), IpProtocol::Tcp, false);
    assert!(!stack.has_pending());
    stack.give(b"x".to_vec(), IpProtocol::Other(2), true);
    assert!(!stack.has_pending());
    stack.give(b"x".to_vec(), IpProtocol::Tcp, true);
    assert!(stack.has_pending());
}

#[test]
fn a_frame_waits_until_its_channel_has_room() {
    let mut stack = all_on();
    let frame = v4(A, B, 6, b"segment");
    stack.start_send(frame.clone()).unwrap();
    let delivery = stack.begin_send().unwrap();
    assert!(!stack.has_pending());
    match stack.on_reservation(delivery, Reservation::Pending) {
        SendStep::Pending => {}
        _ => panic!("the frame has to wait"),
    }
    assert!(stack.has_pending());
    let delivery = stack.begin_send().unwrap();
    match stack.on_reservation(delivery, Reservation::Granted) {
        SendStep::Send(sent) => assert_eq!(sent, frame),
        _ => panic!("the frame has to go"),
    }
    assert!(!stack.has_pending());
    assert_eq!(on_sent(true), Ok(()));
}

#[test]
fn a_closed_channel_is_reported() {
    let mut stack = all_on();
    stack.start_send(v4(A, B, 6, b"segment")).unwrap();
    let delivery = stack.begin_send().unwrap();
    match stack.on_reservation(delivery, Reservation::Closed) {
        SendStep::Failed(error) => assert_eq!(error, NetError::ChannelClosed),
        _ => panic!("the channel is closed"),
    }
    assert!(!stack.has_pending());
    assert_eq!(on_sent(false), Err(NetError::ChannelClosed));
}

#[test]
fn packets_are_read() {
    let frame = v4(A, B, 6, b"segment");
    let packet = IpPacket::new_checked(&frame).unwrap();
    assert_eq!(packet.src_addr(), IpAddr::V4(A));
    assert_eq!(packet.dst_addr(), IpAddr::V4(B));
    assert_eq!(packet.protocol(), IpProtocol::Tcp);
    assert_eq!(packet.payload(), b"segment");

    let frame = v6([1; 16], [2; 16], 132, b"chunk");
    let packet = IpPacket::new_checked(&frame).unwrap();
    assert_eq!(packet.src_addr(), IpAddr::V6([1; 16]));
    assert_eq!(packet.dst_addr(), IpAddr::V6([2; 16]));
    assert_eq!(packet.protocol(), IpProtocol::Other(132));
    assert_eq!(packet.payload(), b"chunk");

    assert!(IpPacket::new_checked(&[]).is_err());
}

#[test]
fn options_and_padding_are_no_payload() {
    let mut frame = v4(A, B, 17, &[0, 0, 0, 0, 1, 2, 3]);
    frame[0] = 0x46;
    frame.extend_from_slice(&[9, 9]);
    let packet = IpPacket::new_checked(&frame).unwrap();
    assert_eq!(packet.payload(), &[1, 2, 3]);
}

#[test]
fn errors_stop_the_copying() {
    let stop = OnError::Stop;
    assert!(matches!(
        stop.next::<u8, u8>(CopyEvent::Started),
        CopyAction::Receive
    ));
    assert!(matches!(
        stop.next::<u8, u8>(CopyEvent::Received(Ok(7))),
        CopyAction::Send(7)
    ));
    assert!(matches!(
        stop.next::<u8, u8>(CopyEvent::Sent(Ok(()))),
        CopyAction::Receive
    ));
    assert!(matches!(
        stop.next::<u8, u8>(CopyEvent::Received(Err(3))),
        CopyAction::Finish(Err(3))
    ));
    assert!(matches!(
        stop.next::<u8, u8>(CopyEvent::Sent(Err(4))),
        CopyAction::Finish(Err(4))
    ));
    assert!(matches!(
        stop.next::<u8, u8>(CopyEvent::Ended),
        CopyAction::Finish(Ok(()))
    ));
}

#[test]
fn errors_can_be_passed_over() {
    let rest = Duration::from_millis(5);
    let patient = OnError::Continue(Some(rest));
    assert!(matches!(
        patient.next::<u8, u8>(CopyEvent::Received(Err(3))),
        CopyAction::Rest(d) if d == rest
    ));
    assert!(matches!(
        patient.next::<u8, u8>(CopyEvent::Sent(Err(3))),
        CopyAction::Rest(d) if d == rest
    ));
    assert!(matches!(
        patient.next::<u8, u8>(CopyEvent::Rested),
        CopyAction::Receive
    ));
    assert!(matches!(
        patient.next::<u8, u8>(CopyEvent::Ended),
        CopyAction::Finish(Ok(()))
    ));
    let hasty = OnError::Continue(None);
    assert!(matches!(
        hasty.next::<u8, u8>(CopyEvent::Sent(Err(3))),
        CopyAction::Receive
    ));
}

#[test]
fn the_device_carries_ip_packets() {
    let caps = capabilities();
    assert_eq!(caps.medium, DeviceMedium::Ip);
    assert_eq!(caps.max_transmission_unit, 1504);
    for used in [caps.ipv4, caps.udp, caps.tcp, caps.icmpv4, caps.icmpv6] {
        assert_eq!(used, ChecksumUse::Outgoing);
    }
}

#[test]
fn the_size_of_a_channel_that_is_off_does_not_matter() {
    let builder: StackBuilder<Rule> = StackBuilder::default()
        .udp_buffer_size(0)
        .tcp_buffer_size(0);
    let plan = builder.channels();
    assert_eq!((plan.udp, plan.tcp), (None, None));
    assert!(builder.build().is_ok());
}

#[test]
fn icmp_waits_in_the_queue_of_tcp() {
    assert_eq!(queue_of(Channel::Icmp), Queue::Tcp);
    assert_eq!(queue_of(Channel::Tcp), Queue::Tcp);
    assert_eq!(queue_of(Channel::Udp), Queue::Udp);
}

#[test]
fn the_stack_closes_once_it_is_flushed() {
    assert!(on_flushed(Ok(())));
    assert!(!on_flushed(Err(NetError::ChannelClosed)));
}

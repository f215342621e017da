//! Connections over two interfaces that hand each other their frames.
use netstack::addr::{IpAddr, SocketAddr};
use netstack::control::{
    FlushPoll, ReadPoll, ShutdownPoll, SocketState, WritePoll, BUFFER_SIZE,
};
use netstack::device::capabilities;
use netstack::error::NetError;
use netstack::iface::{configure_fresh_interface, configure_interface};
use netstack::listener::{
    create_connection, handle_packet, next_wait, parse_tcp_packet, PacketAction,
};
use netstack::packet::IpPacket;
use netstack::stream::TcpStream;
use netstack::table::SocketTable;
use smoltcp::iface::{Config, Interface, SocketSet};
use smoltcp::phy::{Checksum, Device, DeviceCapabilities, Medium, RxToken, TxToken};
use smoltcp::socket::tcp::{Socket, SocketBuffer, State};
use smoltcp::time::{Duration, Instant};
use smoltcp::wire::{HardwareAddress, IpAddress, IpCidr, Ipv4Address, Ipv6Address};
use std::collections::VecDeque;
use std::sync::atomic::{AtomicUsize, Ordering};
use std::sync::Arc;
use std::task::{Wake, Waker};

struct Counter(AtomicUsize);

impl Wake for Counter {
    fn wake(self: Arc<Self>) {
        self.0.fetch_add(1, Ordering::SeqCst);
    }
}

fn counter() -> (Arc<Counter>, Waker) {
    let counter = Arc::new(Counter(AtomicUsize::new(0)));
    let waker = Waker::from(counter.clone());
    (counter, waker)
}

struct Wire {
    incoming: VecDeque<Vec<u8>>,
    outgoing: Vec<Vec<u8>>,
    checked: bool,
}

impl Wire {
    fn new(checked: bool) -> Wire {
        Wire {
            incoming: VecDeque::new(),
            outgoing: Vec::new(),
            checked,
        }
    }
}

struct Received(Vec<u8>);

struct Sending<'a>(&'a mut Vec<Vec<u8>>);

impl RxToken for Received {
    fn consume<R, F>(self, f: F) -> R
    where
        F: FnOnce(&[u8]) -> R,
    {
        f(&self.0)
    }
}

impl<'a> TxToken for Sending<'a> {
    fn consume<R, F>(self, len: usize, f: F) -> R
    where
        F: FnOnce(&mut [u8]) -> R,
    {
        let mut buffer = vec![0u8; len];
        let result = f(&mut buffer);
        self.0.push(buffer);
        result
    }
}

impl Device for Wire {
    type RxToken<'a> = Received;
    type TxToken<'a> = Sending<'a>;

    fn receive(&mut self, _: Instant) -> Option<(Received, Sending<'_>)> {
        let frame = self.incoming.pop_front()?;
        Some((Received(frame), Sending(&mut self.outgoing)))
    }

    fn transmit(&mut self, _: Instant) -> Option<Sending<'_>> {
        Some(Sending(&mut self.outgoing))
    }

    fn capabilities(&self) -> DeviceCapabilities {
        let mut caps = DeviceCapabilities::default();
        caps.medium = Medium::Ip;
        caps.max_transmission_unit = capabilities().max_transmission_unit;
        if !self.checked {
            caps.checksum.ipv4 = Checksum::Tx;
            caps.checksum.tcp = Checksum::Tx;
        }
        caps
    }
}

fn interface(device: &mut Wire) -> Interface {
    Interface::new(
        Config::new(HardwareAddress::Ip),
        device,
        Instant::from_millis(0),
    )
}

/// A client with one socket, and the stack that it talks to.
struct World {
    now: i64,
    client_wire: Wire,
    client: Interface,
    client_sockets: SocketSet<'static>,
    server_wire: Wire,
    server: Interface,
    table: SocketTable,
    streams: Vec<TcpStream>,
    woken: usize,
}

const CLIENT: [u8; 4] = [10, 0, 0, 1];
const SERVER: [u8; 4] = [93, 184, 216, 34];

impl World {
    fn new() -> World {
        let mut client_wire = Wire::new(true);
        let mut client = interface(&mut client_wire);
        client.update_ip_addrs(|addrs| {
            addrs
                .push(IpCidr::new(IpAddress::Ipv4(Ipv4Address::from(CLIENT)), 24))
                .unwrap();
        });
        client
            .routes_mut()
            .add_default_ipv4_route(Ipv4Address::new(10, 0, 0, 2))
            .unwrap();
        let mut server_wire = Wire::new(false);
        let mut server = interface(&mut server_wire);
        configure_interface(&mut server).unwrap();
        World {
            now: 0,
            client_wire,
            client,
            client_sockets: SocketSet::new(Vec::new()),
            server_wire,
            server,
            table: SocketTable::new(),
            streams: Vec::new(),
            woken: 0,
        }
    }

    fn connect(&mut self, port: u16) -> smoltcp::iface::SocketHandle {
        let mut socket = Socket::new(
            SocketBuffer::new(vec![0u8; 4096]),
            SocketBuffer::new(vec![0u8; 4096]),
        );
        socket
            .connect(
                self.client.context(),
                (IpAddress::Ipv4(Ipv4Address::from(SERVER)), port),
                40000 + port,
            )
            .unwrap();
        self.client_sockets.add(socket)
    }

    fn step(&mut self) {
        self.now += 20;
        let now = Instant::from_millis(self.now);
        self.client
            .poll(now, &mut self.client_wire, &mut self.client_sockets);
        for frame in std::mem::take(&mut self.client_wire.outgoing) {
            match handle_packet(frame).unwrap() {
                PacketAction::Ignore => {}
                PacketAction::Forward(frame) => self.server_wire.incoming.push_back(frame),
                PacketAction::Open {
                    stream,
                    connection,
                    frame,
                } => {
                    self.streams.push(stream);
                    self.table.insert(connection);
                    self.server_wire.incoming.push_back(frame);
                }
            }
        }
        self.server
            .poll(now, &mut self.server_wire, &mut self.table.set);
        for wakeups in self.table.service() {
            for waker in [wakeups.sender, wakeups.receiver, wakeups.shutdown] {
                if let Some(waker) = waker {
                    waker.wake();
                    self.woken += 1;
                }
            }
        }
        for frame in std::mem::take(&mut self.server_wire.outgoing) {
            self.client_wire.incoming.push_back(frame);
        }
    }

    fn run(&mut self, steps: usize) {
        for _ in 0..steps {
            self.step();
        }
    }
}

#[test]
fn a_connection_carries_data_both_ways_and_closes() {
    let mut world = World::new();
    let handle = world.connect(80);
    world.run(4);
    assert_eq!(world.streams.len(), 1);
    assert_eq!(world.table.connections.len(), 1);
    assert_eq!(
        world.client_sockets.get::<Socket>(handle).state(),
        State::Established
    );
    let stream = world.streams.pop().unwrap();
    assert_eq!(
        stream.endpoints(),
        (
            SocketAddr::new(IpAddr::V4(CLIENT), 40080),
            SocketAddr::new(IpAddr::V4(SERVER), 80)
        )
    );

    let (count, waker) = counter();
    let mut buf = [0u8; 64];
    assert_eq!(stream.poll_read(&waker, &mut buf), ReadPoll::Pending);
    world
        .client_sockets
        .get_mut::<Socket>(handle)
        .send_slice(b"GET /")
        .unwrap();
    world.run(2);
    assert_eq!(count.0.load(Ordering::SeqCst), 1);
    assert_eq!(
        stream.poll_read(&waker, &mut buf),
        ReadPoll::Ready {
            read: 5,
            notify: true
        }
    );
    assert_eq!(&buf[..5], b"GET /");

    assert_eq!(
        stream.poll_write(&waker, b"200 OK"),
        WritePoll::Ready {
            written: 6,
            notify: true
        }
    );
    world.run(3);
    let mut answer = [0u8; 64];
    let n = world
        .client_sockets
        .get_mut::<Socket>(handle)
        .recv_slice(&mut answer)
        .unwrap();
    assert_eq!(&answer[..n], b"200 OK");

    assert_eq!(
        stream.poll_shutdown(&waker),
        ShutdownPoll::Pending { notify: true }
    );
    world.run(1);
    assert_eq!(count.0.load(Ordering::SeqCst), 2);
    assert_eq!(stream.poll_shutdown(&waker), ShutdownPoll::Ready);
    world.run(2);
    assert_eq!(
        world.client_sockets.get::<Socket>(handle).state(),
        State::CloseWait
    );
    world.client_sockets.get_mut::<Socket>(handle).close();
    world.run(4);
    assert_eq!(
        stream.poll_read(&waker, &mut buf),
        ReadPoll::Ready {
            read: 0,
            notify: false
        }
    );
    let _ = stream.release();
    world.run(2);
    assert_eq!(world.table.connections.len(), 0);
    assert_eq!(world.table.set.iter().count(), 0);
}

#[test]
fn more_than_a_buffer_arrives_whole_and_in_order() {
    let mut world = World::new();
    let handle = world.connect(80);
    world.run(4);
    let stream = world.streams.pop().unwrap();
    let (_, waker) = counter();
    let data: Vec<u8> = (0..40000u32).map(|i| (i % 251) as u8).collect();
    let mut sent = 0;
    let mut got = Vec::new();
    for _ in 0..400 {
        if let WritePoll::Ready { written, .. } = stream.poll_write(&waker, &data[sent..]) {
            sent += written;
        }
        world.step();
        let client = world.client_sockets.get_mut::<Socket>(handle);
        let mut buf = [0u8; 4096];
        if client.can_recv() {
            let n = client.recv_slice(&mut buf).unwrap();
            got.extend_from_slice(&buf[..n]);
        }
        if got.len() == data.len() {
            break;
        }
    }
    assert!(got == data);
}

#[test]
fn a_released_stream_still_sends_what_was_written() {
    let mut world = World::new();
    let handle = world.connect(80);
    world.run(4);
    let stream = world.streams.pop().unwrap();
    let (_, waker) = counter();
    stream.poll_write(&waker, b"bye");
    let _ = stream.release();
    assert_eq!(stream.control.lock().send_state, SocketState::Closing);
    world.run(3);
    let mut answer = [0u8; 8];
    let n = world
        .client_sockets
        .get_mut::<Socket>(handle)
        .recv_slice(&mut answer)
        .unwrap();
    assert_eq!(&answer[..n], b"bye");
    world.run(4);
    assert_eq!(world.table.connections.len(), 0);
}

#[test]
fn several_connections_are_kept_apart() {
    let mut world = World::new();
    let first = world.connect(80);
    let second = world.connect(81);
    let third = world.connect(82);
    world.run(4);
    assert_eq!(world.table.connections.len(), 3);
    let (_, waker) = counter();
    for (i, handle) in [first, second, third].into_iter().enumerate() {
        world
            .client_sockets
            .get_mut::<Socket>(handle)
            .send_slice(&[i as u8])
            .unwrap();
    }
    world.run(2);
    for (i, stream) in world.streams.iter().enumerate() {
        let mut buf = [9u8; 2];
        assert_eq!(
            stream.poll_read(&waker, &mut buf),
            ReadPoll::Ready {
                read: 1,
                notify: true
            }
        );
        assert_eq!(buf[0], i as u8);
        assert_eq!(stream.endpoints().1.port(), 80 + i as u16);
    }
    let _ = world.streams[1].release();
    world.run(2);
    assert_eq!(world.table.connections.len(), 2);
    assert_eq!(world.table.set.iter().count(), 2);
    world
        .client_sockets
        .get_mut::<Socket>(third)
        .send_slice(b"z")
        .unwrap();
    world.run(2);
    let mut buf = [9u8; 2];
    assert_eq!(
        world.streams[2].poll_read(&waker, &mut buf),
        ReadPoll::Ready {
            read: 1,
            notify: true
        }
    );
    assert_eq!(buf[0], b'z');
}

#[test]
fn an_aborted_client_ends_the_stream() {
    let mut world = World::new();
    let handle = world.connect(80);
    world.run(4);
    let stream = world.streams.pop().unwrap();
    let (count, waker) = counter();
    let mut buf = [0u8; 4];
    assert_eq!(stream.poll_read(&waker, &mut buf), ReadPoll::Pending);
    world.client_sockets.get_mut::<Socket>(handle).abort();
    world.run(2);
    assert_eq!(count.0.load(Ordering::SeqCst), 1);
    assert_eq!(world.table.connections.len(), 0);
    assert_eq!(
        stream.poll_read(&waker, &mut buf),
        ReadPoll::Ready {
            read: 0,
            notify: false
        }
    );
    assert_eq!(stream.poll_write(&waker, b"x"), WritePoll::BrokenPipe);
}

#[test]
fn closing_sockets_are_taken_out_by_their_handles() {
    let mut table = SocketTable::new();
    for port in [1u16, 2, 3] {
        table.insert(create_connection(SocketAddr::new(IpAddr::V4(SERVER), port)).unwrap());
    }
    let gone = vec![table.connections[1].handle];
    let kept = [table.connections[0].handle, table.connections[2].handle];
    table.remove_closed(&gone);
    assert_eq!(table.connections.len(), 2);
    assert_eq!(
        [table.connections[0].handle, table.connections[1].handle],
        kept
    );
    assert_eq!(table.set.iter().count(), 2);
    let (closed, wakeups) = table.process_sockets();
    assert!(closed.is_empty());
    assert_eq!(wakeups.len(), 2);

    let _ = table.connections[1].control.lock().close();
    let (closed, wakeups) = table.process_sockets();
    assert_eq!(closed, vec![kept[1]]);
    assert_eq!(wakeups.len(), 2);
    assert_eq!(table.connections.len(), 2);
    assert_eq!(
        table.connections[0].control.lock().send_state,
        SocketState::Active
    );
}

#[test]
fn a_new_connection_listens_where_it_was_opened_to() {
    let at = SocketAddr::new(IpAddr::V4(SERVER), 443);
    let connection = create_connection(at).unwrap();
    let socket = &connection.socket;
    assert_eq!(socket.state(), State::Listen);
    assert_eq!(
        socket.listen_endpoint(),
        (IpAddress::Ipv4(Ipv4Address::from(SERVER)), 443).into()
    );
    assert_eq!(socket.keep_alive(), Some(Duration::from_secs(28)));
    assert_eq!(socket.timeout(), Some(Duration::from_secs(7200)));
    assert!(!socket.nagle_enabled());
    assert_eq!(socket.send_capacity(), 16383);
    assert_eq!(socket.recv_capacity(), 16383);

    let at = SocketAddr::new(IpAddr::V6([7; 16]), 443);
    let connection = create_connection(at).unwrap();
    assert_eq!(
        connection.socket.listen_endpoint(),
        (IpAddress::Ipv6(Ipv6Address::from([7u8; 16])), 443).into()
    );
}

#[test]
fn there_is_no_connection_to_port_zero() {
    let at = SocketAddr::new(IpAddr::V4(SERVER), 0);
    assert_eq!(create_connection(at).err(), Some(NetError::ListenFailed));
    let refused = handle_packet(tcp_frame(0x02, 0)).err();
    assert_eq!(refused, Some(NetError::ListenFailed));
}

fn tcp_frame(flags: u8, port: u16) -> Vec<u8> {
    let mut frame = vec![0x45, 0, 0, 40, 0, 0, 0x40, 0, 64, 6, 0, 0];
    frame.extend_from_slice(&CLIENT);
    frame.extend_from_slice(&SERVER);
    frame.extend_from_slice(&[0x9c, 0x40]);
    frame.extend_from_slice(&port.to_be_bytes());
    frame.extend_from_slice(&[0, 0, 0, 1, 0, 0, 0, 0, 0x50, flags, 4, 0, 0, 0, 0, 0]);
    frame
}

#[test]
fn frames_are_sorted_by_what_they_call_for() {
    let syn = tcp_frame(0x02, 80);
    match handle_packet(syn.clone()).unwrap() {
        PacketAction::Open {
            stream,
            connection,
            frame,
        } => {
            assert_eq!(frame, syn);
            assert_eq!(stream.src_addr, SocketAddr::new(IpAddr::V4(CLIENT), 40000));
            assert_eq!(stream.dst_addr, SocketAddr::new(IpAddr::V4(SERVER), 80));
            assert!(Arc::ptr_eq(&stream.control, &connection.control));
            assert!(connection.control.lock().send_buffer.is_empty());
        }
        _ => panic!("a connection is opened"),
    }
    for flags in [0x12, 0x10, 0x11, 0x04] {
        let segment = tcp_frame(flags, 80);
        match handle_packet(segment.clone()).unwrap() {
            PacketAction::Forward(frame) => assert_eq!(frame, segment),
            _ => panic!("the segment goes on"),
        }
    }
    let mut icmp = tcp_frame(0x02, 80);
    icmp[9] = 1;
    match handle_packet(icmp.clone()).unwrap() {
        PacketAction::Forward(frame) => assert_eq!(frame, icmp),
        _ => panic!("ICMP goes on"),
    }
    let mut bad_offset = tcp_frame(0x02, 80);
    bad_offset[32] = 0x40;
    let mut too_far = tcp_frame(0x02, 80);
    too_far[32] = 0x60;
    for frame in [vec![], vec![0x45; 10], bad_offset, too_far] {
        assert!(matches!(
            handle_packet(frame).unwrap(),
            PacketAction::Ignore
        ));
    }
}

#[test]
fn a_segment_is_read_between_its_ends() {
    let frame = tcp_frame(0x12, 80);
    let packet = IpPacket::new_checked(&frame).unwrap();
    let header = parse_tcp_packet(&packet).unwrap();
    assert_eq!(header.src, SocketAddr::new(IpAddr::V4(CLIENT), 40000));
    assert_eq!(header.dst, SocketAddr::new(IpAddr::V4(SERVER), 80));
    assert!(header.segment.syn && header.segment.ack);
}

#[test]
fn the_wait_follows_the_interface() {
    assert_eq!(next_wait(None), Some(10_000));
    assert_eq!(next_wait(Some(0)), None);
    assert_eq!(next_wait(Some(123)), Some(123));
}

#[test]
fn an_interface_is_set_up_once() {
    let mut wire = Wire::new(false);
    let mut iface = interface(&mut wire);
    assert!(!iface.any_ip());
    assert_eq!(configure_fresh_interface(&mut iface), Some(Ok(())));
    assert!(iface.any_ip());
    assert_eq!(
        iface.ip_addrs(),
        &[
            IpCidr::new(IpAddress::v4(0, 0, 0, 1), 0),
            IpCidr::new(IpAddress::v6(0, 0, 0, 0, 0, 0, 0, 1), 0),
        ]
    );
    let mut gateways = Vec::new();
    iface.routes_mut().update(|routes| {
        for route in routes.iter() {
            gateways.push((route.cidr.prefix_len(), route.via_router));
        }
    });
    assert_eq!(
        gateways,
        vec![
            (0, IpAddress::v4(0, 0, 0, 1)),
            (0, IpAddress::v6(0, 0, 0, 0, 0, 0, 0, 1)),
        ]
    );
    assert_eq!(configure_fresh_interface(&mut iface), None);
}

#[test]
fn an_interface_without_room_for_routes_is_reported() {
    let mut wire = Wire::new(false);
    let mut iface = interface(&mut wire);
    let other = smoltcp::iface::Route {
        cidr: IpCidr::new(IpAddress::v4(10, 0, 0, 0), 8),
        via_router: IpAddress::v4(10, 0, 0, 1),
        preferred_until: None,
        expires_at: None,
    };
    iface.routes_mut().update(|routes| {
        routes.push(other).unwrap();
        routes.push(other).unwrap();
    });
    assert_eq!(
        configure_fresh_interface(&mut iface),
        Some(Err(NetError::RouteTableFull))
    );
}

#[test]
fn what_the_peer_sent_before_it_closed_is_read_first() {
    let mut world = World::new();
    let handle = world.connect(80);
    world.run(4);
    let stream = world.streams.pop().unwrap();
    let client = world.client_sockets.get_mut::<Socket>(handle);
    client.send_slice(b"the end").unwrap();
    client.close();
    world.run(4);
    let (_, waker) = counter();
    let mut buf = [0u8; 4];
    for expected in [&b"the "[..], &b"end"[..]] {
        assert_eq!(
            stream.poll_read(&waker, &mut buf),
            ReadPoll::Ready {
                read: expected.len(),
                notify: true
            }
        );
        assert_eq!(&buf[..expected.len()], expected);
    }
    world.run(2);
    assert_eq!(
        stream.poll_read(&waker, &mut buf),
        ReadPoll::Ready {
            read: 0,
            notify: false
        }
    );
}

#[test]
fn a_shutdown_sends_everything_first() {
    let mut world = World::new();
    let handle = world.connect(80);
    world.run(4);
    let stream = world.streams.pop().unwrap();
    let (count, waker) = counter();
    let data = vec![5u8; BUFFER_SIZE];
    stream.poll_write(&waker, &data);
    world.run(1);
    stream.poll_write(&waker, &data);
    stream.poll_shutdown(&waker);
    let mut got = 0;
    for _ in 0..200 {
        world.step();
        let client = world.client_sockets.get_mut::<Socket>(handle);
        let mut buf = [0u8; 4096];
        if client.can_recv() {
            got += client.recv_slice(&mut buf).unwrap();
        }
    }
    assert_eq!(got, 2 * BUFFER_SIZE);
    assert_eq!(count.0.load(Ordering::SeqCst), 1);
    assert_eq!(stream.poll_shutdown(&waker), ShutdownPoll::Ready);
    assert_eq!(
        world.client_sockets.get::<Socket>(handle).state(),
        State::CloseWait
    );
}

#[test]
fn a_waiting_writer_and_a_waiting_flush_are_woken() {
    let mut world = World::new();
    world.connect(80);
    world.run(4);
    let stream = world.streams.pop().unwrap();
    let (count, waker) = counter();
    stream.poll_write(&waker, &vec![1u8; BUFFER_SIZE]);
    assert_eq!(stream.poll_write(&waker, b"x"), WritePoll::Pending);
    world.run(1);
    assert_eq!(count.0.load(Ordering::SeqCst), 1);

    let (count, waker) = counter();
    stream.poll_write(&waker, b"x");
    assert_eq!(stream.poll_flush(&waker), FlushPoll::Pending);
    assert_eq!(count.0.load(Ordering::SeqCst), 0);
    drain_and_expect(&mut world, &count);
    assert_eq!(stream.poll_flush(&waker), FlushPoll::Ready);
}

fn drain_and_expect(world: &mut World, count: &Arc<Counter>) {
    for _ in 0..200 {
        world.step();
        for (_, socket) in world.client_sockets.iter_mut() {
            if let smoltcp::socket::Socket::Tcp(client) = socket {
                let mut buf = [0u8; 4096];
                if client.can_recv() {
                    client.recv_slice(&mut buf).unwrap();
                }
            }
        }
        if count.0.load(Ordering::SeqCst) == 1 {
            return;
        }
    }
    panic!("nobody was woken");
}

#[test]
fn a_closed_direction_stays_closed() {
    let mut world = World::new();
    world.connect(80);
    world.run(4);
    let stream = world.streams.pop().unwrap();
    let (_, waker) = counter();
    stream.poll_shutdown(&waker);
    for _ in 0..5 {
        world.step();
        assert_eq!(stream.poll_write(&waker, b"x"), WritePoll::BrokenPipe);
        assert_eq!(stream.control.lock().send_state, SocketState::Closed);
        assert_eq!(stream.control.lock().recv_state, SocketState::Active);
    }
}

//! The application's end of a connection, without a network.
use netstack::addr::{IpAddr, SocketAddr};
use netstack::control::{
    FlushPoll, ReadPoll, ShutdownPoll, SocketControl, SocketState, WritePoll, BUFFER_SIZE,
};
use netstack::shared::{share_control, SharedControl};
use netstack::stream::TcpStream;
use netstack::waker::register_waker;
use std::sync::atomic::{AtomicUsize, Ordering};
use std::sync::Arc;
use std::task::{Wake, Waker};

struct Counter(AtomicUsize);

impl Wake for Counter {
    fn wake(self: Arc<Self>) {
        self.0.fetch_add(1, Ordering::SeqCst);
    }
}

fn counter() -> (Arc<Counter>, Waker) {
    let counter = Arc::new(Counter(AtomicUsize::new(0)));
    let waker = Waker::from(counter.clone());
    (counter, waker)
}

fn woken(counter: &Arc<Counter>) -> usize {
    counter.0.load(Ordering::SeqCst)
}

fn waker() -> Waker {
    counter().1
}

fn local(port: u16) -> SocketAddr {
    SocketAddr::new(IpAddr::V4([127, 0, 0, 1]), port)
}

fn control() -> SharedControl {
    share_control(SocketControl::new())
}

fn stream(control: &SharedControl) -> TcpStream {
    TcpStream::new(local(8080), local(9090), control.clone())
}

fn read(stream: &TcpStream, buf: &mut [u8]) -> usize {
    match stream.poll_read(&waker(), buf) {
        ReadPoll::Ready { read, notify } => {
            assert_eq!(notify, read > 0);
            read
        }
        ReadPoll::Pending => panic!("Read failed: pending"),
    }
}

fn write(stream: &TcpStream, buf: &[u8]) -> usize {
    match stream.poll_write(&waker(), buf) {
        WritePoll::Ready { written, notify } => {
            assert_eq!(notify, written > 0);
            written
        }
        other => panic!("Write failed: {:?}", other),
    }
}

#[test]
fn test_socket_control_new() {
    let ctrl = SocketControl::new();
    assert_eq!(ctrl.send_state, SocketState::Active);
    assert_eq!(ctrl.recv_state, SocketState::Active);
    assert!(ctrl.send_waker.is_none());
    assert!(ctrl.recv_waker.is_none());
    assert!(ctrl.shutdown_waker.is_none());
    assert_eq!(ctrl.send_buffer.capacity(), 16383);
    assert_eq!(ctrl.recv_buffer.capacity(), 16383);
}

#[test]
fn test_socket_control_close() {
    let mut ctrl = SocketControl::new();
    let _ = ctrl.close();
    assert_eq!(ctrl.send_state, SocketState::Closed);
    assert_eq!(ctrl.recv_state, SocketState::Closed);
}

#[test]
fn test_socket_control_ready_to_initiate_close() {
    let mut ctrl = SocketControl::new();

    assert!(!ctrl.ready_to_initiate_close());

    ctrl.send_state = SocketState::Closing;
    assert!(ctrl.ready_to_initiate_close());

    _ = ctrl.send_buffer.enqueue_slice(&[1, 2, 3]);
    assert!(!ctrl.ready_to_initiate_close());
}

#[test]
fn test_tcp_stream_write_when_active() {
    let control = control();
    let stream = stream(&control);
    let data = b"test data";

    let n = write(&stream, data);
    assert_eq!(n, data.len());
    let ctrl = control.lock();
    assert_eq!(ctrl.send_buffer.len(), data.len());
}

#[test]
fn test_tcp_stream_write_when_closed() {
    let control = control();
    control.lock().send_state = SocketState::Closed;

    let stream = stream(&control);
    let data = b"test data";
    assert_eq!(stream.poll_write(&waker(), data), WritePoll::BrokenPipe);
}

#[test]
fn test_tcp_stream_read_eof() {
    let control = control();
    control.lock().recv_state = SocketState::Closed;

    let stream = stream(&control);
    let mut buf = vec![0u8; 1024];
    assert_eq!(read(&stream, &mut buf), 0);
}

#[test]
fn test_tcp_stream_read_with_data() {
    let control = control();
    let test_data = b"hello world";
    _ = control.lock().recv_buffer.enqueue_slice(test_data);

    let stream = stream(&control);
    let mut buf = vec![0u8; 1024];
    let n = read(&stream, &mut buf);
    assert_eq!(n, test_data.len());
    assert_eq!(&buf[..n], test_data);
}

#[test]
fn test_tcp_stream_read_buffered_data_then_eof() {
    let control = control();
    let test_data = b"buffered";
    {
        let mut ctrl = control.lock();
        _ = ctrl.recv_buffer.enqueue_slice(test_data);
        ctrl.recv_state = SocketState::Closed;
    }

    let stream = stream(&control);
    let mut buf = vec![0u8; 1024];

    let n1 = read(&stream, &mut buf);
    assert_eq!(n1, test_data.len());
    assert_eq!(&buf[..n1], test_data);

    let n2 = read(&stream, &mut buf);
    assert_eq!(n2, 0);
}

#[test]
fn test_tcp_stream_flush_success() {
    let control = control();
    let stream = stream(&control);
    assert_eq!(stream.poll_flush(&waker()), FlushPoll::Ready);
}

#[test]
fn test_tcp_stream_flush_when_closed() {
    let control = control();
    control.lock().send_state = SocketState::Closed;

    let stream = stream(&control);
    assert_eq!(stream.poll_flush(&waker()), FlushPoll::BrokenPipe);
}

#[test]
fn test_tcp_stream_shutdown_from_active() {
    let control = control();
    let stream = stream(&control);
    let (count, waker) = counter();

    assert_eq!(
        stream.poll_shutdown(&waker),
        ShutdownPoll::Pending { notify: true }
    );
    assert_eq!(control.lock().send_state, SocketState::Closing);

    let waiting = {
        let mut ctrl = control.lock();
        ctrl.send_state = SocketState::Closed;
        ctrl.wake_shutdown()
    };
    waiting.unwrap().wake();
    assert_eq!(woken(&count), 1);

    assert_eq!(stream.poll_shutdown(&waker), ShutdownPoll::Ready);
}

#[test]
fn test_tcp_stream_shutdown_when_already_closed() {
    let control = control();
    control.lock().send_state = SocketState::Closed;

    let stream = stream(&control);
    assert_eq!(stream.poll_shutdown(&waker()), ShutdownPoll::Ready);
}

#[test]
fn test_tcp_stream_drop_sets_closing_state() {
    let control = control();
    {
        let _stream = stream(&control);
        let _ = _stream.release();
    }

    let ctrl = control.lock();
    assert_eq!(ctrl.send_state, SocketState::Closed);
    assert_eq!(ctrl.recv_state, SocketState::Closed);
}

#[test]
fn test_register_waker_replaces_different_waker() {
    let (count1, waker1) = counter();
    let (count2, waker2) = counter();

    let mut waker_slot = Some(waker1);
    register_waker(&mut waker_slot, &waker2);
    assert!(waker_slot.is_some());

    waker_slot.unwrap().wake();
    assert_eq!(woken(&count1), 0);
    assert_eq!(woken(&count2), 1);
}

#[test]
fn test_concurrent_read_write() {
    let control = control();
    let test_data = b"concurrent test";
    _ = control.lock().recv_buffer.enqueue_slice(test_data);

    let stream = stream(&control);

    let mut buf = vec![0u8; 1024];
    let read_result = read(&stream, &mut buf);
    assert_eq!(read_result, test_data.len());
    assert_eq!(&buf[..read_result], test_data);

    let test_data = b"write data";
    let write_result = write(&stream, test_data);
    assert_eq!(write_result, test_data.len());

    let ctrl = control.lock();
    assert_eq!(ctrl.send_buffer.len(), 10);
}

#[test]
fn test_write_to_full_buffer_then_drain() {
    let control = control();
    let stream = stream(&control);
    let large_data = vec![1u8; BUFFER_SIZE];

    let n1 = write(&stream, &large_data);
    assert_eq!(n1, BUFFER_SIZE);

    {
        let ctrl = control.lock();
        assert!(ctrl.send_buffer.is_full());
    }

    {
        let mut ctrl = control.lock();
        let mut drain = vec![0u8; BUFFER_SIZE];
        let drained = ctrl.send_buffer.dequeue_slice(&mut drain);
        assert_eq!(drained, BUFFER_SIZE);
    }

    let test_data = b"after drain";
    let n2 = write(&stream, test_data);
    assert_eq!(n2, test_data.len());
}

#[test]
fn test_multiple_small_writes() {
    let control = control();
    let stream = stream(&control);

    for i in 0..10 {
        let data = format!("write {}", i);
        write(&stream, data.as_bytes());
    }

    let ctrl = control.lock();
    assert!(ctrl.send_buffer.len() > 0);
    assert_eq!(ctrl.send_buffer.len(), 70);
}

#[test]
fn test_read_partial_data() {
    let control = control();
    let full_data = b"0123456789abcdefghij";
    _ = control.lock().recv_buffer.enqueue_slice(full_data);

    let stream = stream(&control);
    let mut buf = vec![0u8; 10];

    let n1 = read(&stream, &mut buf);
    assert_eq!(n1, 10);
    assert_eq!(&buf[..n1], &full_data[..10]);

    let n2 = read(&stream, &mut buf);
    assert_eq!(n2, 10);
    assert_eq!(&buf[..n2], &full_data[10..]);
}

#[test]
fn test_shutdown_with_pending_data() {
    let control = control();
    _ = control.lock().send_buffer.enqueue_slice(b"pending data");

    let stream = stream(&control);
    let (count, waker) = counter();
    assert_eq!(
        stream.poll_shutdown(&waker),
        ShutdownPoll::Pending { notify: true }
    );

    let waiting = {
        let mut ctrl = control.lock();
        let mut drain = vec![0u8; 100];
        _ = ctrl.send_buffer.dequeue_slice(&mut drain);
        ctrl.send_state = SocketState::Closed;
        ctrl.wake_shutdown()
    };
    waiting.unwrap().wake();
    assert_eq!(woken(&count), 1);
    assert_eq!(stream.poll_shutdown(&waker), ShutdownPoll::Ready);
}

#[test]
fn test_write_after_drop_another_stream() {
    let control = control();
    let stream1 = stream(&control);
    let _ = stream1.release();
    drop(stream1);

    let ctrl = control.lock();
    assert_eq!(ctrl.send_state, SocketState::Closed);
    assert_eq!(ctrl.recv_state, SocketState::Closed);
}

#[test]
fn test_read_write_sequence() {
    let control = control();
    let stream = stream(&control);

    let write_data = b"step1";
    write(&stream, write_data);

    {
        let mut ctrl = control.lock();
        assert_eq!(ctrl.send_buffer.len(), write_data.len());
        _ = ctrl.send_buffer.dequeue_slice(&mut vec![0u8; 100]);
    }

    {
        let mut ctrl = control.lock();
        _ = ctrl.recv_buffer.enqueue_slice(b"step2");
    }

    let mut buf = vec![0u8; 100];
    let n = read(&stream, &mut buf);
    assert_eq!(n, 5);
    assert_eq!(&buf[..n], b"step2");
}

#[test]
fn test_empty_write() {
    let control = control();
    let stream = stream(&control);
    let n = write(&stream, b"");
    assert_eq!(n, 0);

    let ctrl = control.lock();
    assert_eq!(ctrl.send_buffer.len(), 0);
}

#[test]
fn test_write_closing_state() {
    let control = control();
    control.lock().send_state = SocketState::Closing;

    let stream = stream(&control);
    assert_eq!(stream.poll_write(&waker(), b"test"), WritePoll::BrokenPipe);
}

#[test]
fn test_socket_control_wake_methods_with_no_waker() {
    let mut ctrl = SocketControl::new();
    assert!(ctrl.wake_sender().is_none());
    assert!(ctrl.wake_receiver().is_none());
    assert!(ctrl.wake_shutdown().is_none());
}

#[test]
fn test_socket_control_multiple_close_calls() {
    let mut ctrl = SocketControl::new();
    let _ = ctrl.close();
    let _ = ctrl.close();
    assert_eq!(ctrl.send_state, SocketState::Closed);
    assert_eq!(ctrl.recv_state, SocketState::Closed);
}

#[test]
fn test_flush_with_pending_data() {
    let control = control();
    _ = control.lock().send_buffer.enqueue_slice(b"pending");

    let stream = stream(&control);
    let (count, waker) = counter();
    assert_eq!(stream.poll_flush(&waker), FlushPoll::Pending);

    let waiting = {
        let mut ctrl = control.lock();
        let mut drain = vec![0u8; 100];
        _ = ctrl.send_buffer.dequeue_slice(&mut drain);
        ctrl.wake_sender()
    };
    waiting.unwrap().wake();
    assert_eq!(woken(&count), 1);
    assert_eq!(stream.poll_flush(&waker), FlushPoll::Ready);
}

#[test]
fn test_read_exact_buffer_size() {
    let control = control();
    let data = vec![42u8; BUFFER_SIZE];
    _ = control.lock().recv_buffer.enqueue_slice(&data);

    let stream = stream(&control);
    let mut buf = vec![0u8; BUFFER_SIZE + 100];

    let n = read(&stream, &mut buf);
    assert_eq!(n, BUFFER_SIZE);
    assert_eq!(&buf[..n], &data[..]);
}

#[test]
fn test_multiple_reads_until_eof() {
    let control = control();
    {
        let mut ctrl = control.lock();
        _ = ctrl.recv_buffer.enqueue_slice(b"chunk1");
        ctrl.recv_state = SocketState::Closed;
    }

    let stream = stream(&control);
    let mut total = Vec::new();
    let mut buf = vec![0u8; 100];

    loop {
        let n = read(&stream, &mut buf);
        if n == 0 {
            break;
        }
        total.extend_from_slice(&buf[..n]);
    }

    assert_eq!(total, b"chunk1");
}

#[test]
fn a_reader_without_data_waits_and_is_registered() {
    let control = control();
    let stream = stream(&control);
    let (count, waker) = counter();
    let mut buf = [7u8; 4];
    assert_eq!(stream.poll_read(&waker, &mut buf), ReadPoll::Pending);
    assert_eq!(buf, [7u8; 4]);

    let waiting = control.lock().wake_receiver();
    waiting.unwrap().wake();
    assert_eq!(woken(&count), 1);
}

#[test]
fn a_read_leaves_the_rest_of_the_buffer_alone() {
    let control = control();
    _ = control.lock().recv_buffer.enqueue_slice(b"ab");
    let stream = stream(&control);
    let mut buf = [7u8; 4];
    assert_eq!(read(&stream, &mut buf), 2);
    assert_eq!(buf, [b'a', b'b', 7, 7]);
}

#[test]
fn a_writer_without_room_waits_and_is_registered() {
    let control = control();
    let stream = stream(&control);
    assert_eq!(write(&stream, &vec![1u8; BUFFER_SIZE - 3]), BUFFER_SIZE - 3);
    assert_eq!(write(&stream, b"abcdef"), 3);

    let (count, waker) = counter();
    assert_eq!(stream.poll_write(&waker, b"def"), WritePoll::Pending);
    let waiting = control.lock().wake_sender();
    waiting.unwrap().wake();
    assert_eq!(woken(&count), 1);
}

#[test]
fn the_same_waker_is_registered_once() {
    let (count, waker) = counter();
    let mut slot = None;
    register_waker(&mut slot, &waker);
    let holders = Arc::strong_count(&count);
    register_waker(&mut slot, &waker);
    assert_eq!(Arc::strong_count(&count), holders);
    slot.unwrap().wake();
    assert_eq!(woken(&count), 1);
}

#[test]
fn releasing_a_stream_keeps_what_was_written() {
    let control = control();
    let stream = stream(&control);
    write(&stream, b"last words");
    let (count, waker) = counter();
    assert_eq!(stream.poll_flush(&waker), FlushPoll::Pending);

    let wakeups = stream.release();
    wakeups.sender.unwrap().wake();
    assert!(wakeups.receiver.is_none());
    assert!(wakeups.shutdown.is_none());
    assert_eq!(woken(&count), 1);

    let ctrl = control.lock();
    assert_eq!(ctrl.send_state, SocketState::Closing);
    assert_eq!(ctrl.recv_state, SocketState::Closed);
    assert_eq!(ctrl.send_buffer.len(), 10);
    assert!(!ctrl.is_stream_dropped());
}

#[test]
fn closing_hands_out_everybody_who_waits() {
    let (count, waker) = counter();
    let mut ctrl = SocketControl::new();
    let mut buf = [0u8; 1];
    assert_eq!(ctrl.poll_read(&waker, &mut buf), ReadPoll::Pending);
    assert_eq!(
        ctrl.poll_shutdown(&waker),
        ShutdownPoll::Pending { notify: true }
    );
    let wakeups = ctrl.close();
    wakeups.receiver.unwrap().wake();
    wakeups.shutdown.unwrap().wake();
    assert!(wakeups.sender.is_none());
    assert_eq!(woken(&count), 2);
    assert!(ctrl.is_stream_dropped());

    let again = ctrl.close();
    assert!(again.sender.is_none() && again.receiver.is_none() && again.shutdown.is_none());
}

#[test]
fn a_stream_knows_its_two_ends() {
    let control = control();
    let (local_end, remote_end) = stream(&control).endpoints();
    assert_eq!(local_end, local(8080));
    assert_eq!(remote_end, local(9090));
    assert_eq!(local_end.ip(), IpAddr::V4([127, 0, 0, 1]));
    assert_eq!(remote_end.port(), 9090);
}

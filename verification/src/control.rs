//! The state that a TCP stream shares with the task that drives its socket.
use crate::ring::{
    least, ring_capacity, ring_contents, ring_dequeue, ring_enqueue, ring_is_empty, ring_is_full,
    ring_new, room,
};
use crate::socket::{
    tcp_abort, tcp_can_recv, tcp_can_send, tcp_close, tcp_may_recv, tcp_may_send, tcp_recv,
    tcp_send, tcp_state, tcp_view, TcpState, TcpView,
};
use crate::waker::{register_waker, registration, Wakeups};
use smoltcp::socket::tcp::Socket as TcpSocket;
use smoltcp::storage::RingBuffer;
use std::task::Waker;
use vstd::prelude::*;

verus! {

/// The size of each buffer of a stream and of its socket, in octets.
pub const BUFFER_SIZE: usize = 16383;

/// How far one direction of a stream has been closed.
#[derive(Debug, Clone, Copy, PartialEq, Eq, Structural)]
pub enum SocketState {
    Active,
    Closing,
    Closed,
}

/// The state that a stream shares with the task that drives its socket.
pub struct SocketControl {
    /// What the application wrote and the socket has not taken yet.
    pub send_buffer: RingBuffer<'static, u8>,
    /// What the socket received and the application has not read yet.
    pub recv_buffer: RingBuffer<'static, u8>,
    /// The task that waits for room to write, or for a flush.
    pub send_waker: Option<Waker>,
    /// The task that waits for something to read.
    pub recv_waker: Option<Waker>,
    /// The task that waits for the shutdown.
    pub shutdown_waker: Option<Waker>,
    pub send_state: SocketState,
    pub recv_state: SocketState,
}

/// What a `SocketControl` holds.
#[verifier::ext_equal]
pub struct ControlView {
    pub send: Seq<u8>,
    pub send_capacity: nat,
    pub recv: Seq<u8>,
    pub recv_capacity: nat,
    pub send_waker: Option<Waker>,
    pub recv_waker: Option<Waker>,
    pub shutdown_waker: Option<Waker>,
    pub send_state: SocketState,
    pub recv_state: SocketState,
}

/// What servicing a socket once leads to.
#[verifier::ext_equal]
pub struct Step {
    pub control: ControlView,
    pub socket: TcpView,
    pub wakeups: Wakeups,
    /// Whether the socket is done and to be removed.
    pub finished: bool,
}

/// A stream half-way through a step: its control, its socket, and who is to be
/// woken so far.
#[verifier::ext_equal]
pub struct Progress {
    pub control: ControlView,
    pub socket: TcpView,
    pub wakeups: Wakeups,
}

impl ControlView {
    /// A stream on which nothing has happened yet.
    pub open spec fn fresh() -> ControlView {
        ControlView {
            send: Seq::empty(),
            send_capacity: BUFFER_SIZE as nat,
            recv: Seq::empty(),
            recv_capacity: BUFFER_SIZE as nat,
            send_waker: None,
            recv_waker: None,
            shutdown_waker: None,
            send_state: SocketState::Active,
            recv_state: SocketState::Active,
        }
    }

    /// Both directions closed and nobody waiting; the buffers keep what they hold.
    pub open spec fn shut(self) -> ControlView {
        ControlView {
            send_state: SocketState::Closed,
            recv_state: SocketState::Closed,
            send_waker: None,
            recv_waker: None,
            shutdown_waker: None,
            ..self
        }
    }

    /// Everybody who waits.
    pub open spec fn waiting(self) -> Wakeups {
        Wakeups {
            sender: self.send_waker,
            receiver: self.recv_waker,
            shutdown: self.shutdown_waker,
        }
    }

    /// Whether the application has closed the stream and everything it wrote has
    /// gone to the socket.
    pub open spec fn drained(self) -> bool {
        self.send_state == SocketState::Closing && self.send.len() == 0
    }

    /// Whether both directions are closed.
    pub open spec fn dropped(self) -> bool {
        self.send_state == SocketState::Closed && self.recv_state == SocketState::Closed
    }

    /// The stream after the application let go of it: what was written is still to
    /// be sent, nothing more is read.
    pub open spec fn released(self) -> ControlView {
        ControlView {
            send_state: if self.send_state == SocketState::Active {
                if self.send.len() == 0 {
                    SocketState::Closed
                } else {
                    SocketState::Closing
                }
            } else {
                self.send_state
            },
            recv_state: if self.recv_state == SocketState::Active {
                SocketState::Closed
            } else {
                self.recv_state
            },
            send_waker: None,
            recv_waker: None,
            shutdown_waker: None,
            ..self
        }
    }

    /// How much a socket hands to the receive buffer.
    pub open spec fn intake(self, socket: TcpView) -> int {
        least(socket.rx.len() as int, room(self.recv.len(), self.recv_capacity))
    }

    /// How much the send buffer hands to a socket.
    pub open spec fn outflow(self, socket: TcpView) -> int {
        if socket.may_send() {
            least(self.send.len() as int, room(socket.tx.len(), socket.tx_capacity))
        } else {
            0
        }
    }

    /// Whether the transmit half of the socket is to be closed: the application
    /// asked for it and everything it wrote has gone to the socket, or it dropped
    /// the stream, or the peer closed first.
    pub open spec fn wants_close(self, socket: TcpView) -> bool {
        match self.send_state {
            SocketState::Closing => self.send.len() == 0,
            SocketState::Closed => self.dropped(),
            SocketState::Active => socket.state == TcpState::CloseWait,
        }
    }

    /// The socket after the close that the application or the peer asked for.
    pub open spec fn after_close(self, socket: TcpView) -> TcpView {
        if self.wants_close(socket) && socket.may_send() {
            socket.closed()
        } else {
            socket
        }
    }

    /// Whether the stream is gone and its socket can send nothing more.
    pub open spec fn abandoned(self, socket: TcpView) -> bool {
        self.dropped() && !socket.may_send()
    }

    /// The stream after it took what its socket received. The receive direction
    /// closes when the socket has nothing more to give and all of it was read.
    pub open spec fn after_read(self, socket: TcpView) -> Progress {
        let n = self.intake(socket);
        let recv = self.recv + socket.rx.take(n);
        let left = TcpView { rx: socket.rx.skip(n), ..socket };
        let ends = self.recv_state == SocketState::Active && !left.may_recv() && recv.len() == 0
            && !left.in_handshake();
        let wake = n > 0 || ends;
        Progress {
            control: ControlView {
                recv,
                recv_state: if ends {
                    SocketState::Closed
                } else {
                    self.recv_state
                },
                recv_waker: if wake {
                    None
                } else {
                    self.recv_waker
                },
                ..self
            },
            socket: left,
            wakeups: Wakeups {
                receiver: if wake {
                    self.recv_waker
                } else {
                    None
                },
                ..Wakeups::nobody()
            },
        }
    }

    /// The stream after it gave its socket what the application wrote.
    pub open spec fn after_write(self, socket: TcpView) -> Progress {
        let n = self.outflow(socket);
        let rest = ControlView { send: self.send.skip(n), ..self };
        Progress {
            control: ControlView {
                send_waker: if n > 0 {
                    None
                } else {
                    self.send_waker
                },
                shutdown_waker: if rest.drained() {
                    None
                } else {
                    self.shutdown_waker
                },
                ..rest
            },
            socket: TcpView { tx: socket.tx + self.send.take(n), ..socket },
            wakeups: Wakeups {
                sender: if n > 0 {
                    self.send_waker
                } else {
                    None
                },
                shutdown: if rest.drained() {
                    self.shutdown_waker
                } else {
                    None
                },
                ..Wakeups::nobody()
            },
        }
    }

    /// Whether the shutdown that the application asked for has come to its end.
    pub open spec fn shutdown_ends(self, socket: TcpView) -> bool {
        self.send_state == SocketState::Closing && !socket.may_send()
    }

    /// The stream after it took note of the state of its socket.
    pub open spec fn after_sync(self, socket: TcpView) -> Progress {
        if self.shutdown_ends(socket) {
            Progress {
                control: ControlView {
                    send_state: SocketState::Closed,
                    shutdown_waker: None,
                    ..self
                },
                socket,
                wakeups: Wakeups { shutdown: self.shutdown_waker, ..Wakeups::nobody() },
            }
        } else {
            Progress { control: self, socket, wakeups: Wakeups::nobody() }
        }
    }

    /// The stream and its socket after they were serviced once.
    pub open spec fn step(self, socket: TcpView) -> Step {
        if socket.state == TcpState::Closed {
            Step { control: self.shut(), socket, wakeups: self.waiting(), finished: true }
        } else {
            let socket = self.after_close(socket);
            if self.abandoned(socket) {
                Step {
                    control: self.shut(),
                    socket: TcpView { state: TcpState::Closed, ..socket },
                    wakeups: self.waiting(),
                    finished: true,
                }
            } else {
                let read = self.after_read(socket);
                let written = read.control.after_write(read.socket);
                let synced = written.control.after_sync(written.socket);
                Step {
                    control: synced.control,
                    socket: synced.socket,
                    wakeups: Wakeups {
                        sender: written.wakeups.sender,
                        receiver: read.wakeups.receiver,
                        shutdown: if written.wakeups.shutdown is Some {
                            written.wakeups.shutdown
                        } else {
                            synced.wakeups.shutdown
                        },
                    },
                    finished: false,
                }
            }
        }
    }
}

/// What came of an attempt to read. `notify` tells whether the task that drives
/// the socket is to look again.
#[derive(Debug, Clone, Copy, PartialEq, Eq, Structural)]
pub enum ReadPoll {
    Pending,
    Ready { read: usize, notify: bool },
}

/// What came of an attempt to write.
#[derive(Debug, Clone, Copy, PartialEq, Eq, Structural)]
pub enum WritePoll {
    Pending,
    Ready { written: usize, notify: bool },
    BrokenPipe,
}

/// What came of an attempt to flush.
#[derive(Debug, Clone, Copy, PartialEq, Eq, Structural)]
pub enum FlushPoll {
    Pending,
    Ready,
    BrokenPipe,
}

/// What came of an attempt to shut down.
#[derive(Debug, Clone, Copy, PartialEq, Eq, Structural)]
pub enum ShutdownPoll {
    Pending { notify: bool },
    Ready,
}

/// A read gives the oldest buffered octets, as many as there are and `buf` has
/// room for. With nothing buffered it is the end of the stream where the receive
/// direction is closed, and otherwise the reader is registered.
pub open spec fn read_outcome(
    before: ControlView,
    waker: Waker,
    buf: Seq<u8>,
    after: ControlView,
    filled: Seq<u8>,
    res: ReadPoll,
) -> bool {
    if before.recv.len() == 0 && before.recv_state != SocketState::Closed {
        &&& res == ReadPoll::Pending
        &&& registration(before.recv_waker, waker, after.recv_waker)
        &&& after == (ControlView { recv_waker: after.recv_waker, ..before })
        &&& filled == buf
    } else {
        let n = least(buf.len() as int, before.recv.len() as int);
        &&& res matches ReadPoll::Ready { read, notify }
        &&& read == n
        &&& notify == (n > 0)
        &&& after == (ControlView { recv: before.recv.skip(n), ..before })
        &&& filled == before.recv.take(n) + buf.skip(n)
    }
}

/// A write is refused once the application closed the transmit direction. It
/// buffers as much of the front of `buf` as there is room for; with no room at all
/// the writer is registered.
pub open spec fn write_outcome(
    before: ControlView,
    waker: Waker,
    buf: Seq<u8>,
    after: ControlView,
    res: WritePoll,
) -> bool {
    if before.send_state != SocketState::Active {
        &&& res == WritePoll::BrokenPipe
        &&& after == before
    } else if before.send.len() == before.send_capacity {
        &&& res == WritePoll::Pending
        &&& registration(before.send_waker, waker, after.send_waker)
        &&& after == (ControlView { send_waker: after.send_waker, ..before })
    } else {
        let n = least(buf.len() as int, before.send_capacity - before.send.len());
        &&& before.send.len() < before.send_capacity
        &&& res matches WritePoll::Ready { written, notify }
        &&& written == n
        &&& notify == (n > 0)
        &&& after == (ControlView { send: before.send + buf.take(n), ..before })
    }
}

/// A flush is refused once the transmit direction is closed. It is done when
/// nothing is buffered; until then the writer is registered.
pub open spec fn flush_outcome(
    before: ControlView,
    waker: Waker,
    after: ControlView,
    res: FlushPoll,
) -> bool {
    if before.send_state == SocketState::Closed {
        &&& res == FlushPoll::BrokenPipe
        &&& after == before
    } else if before.send.len() > 0 {
        &&& res == FlushPoll::Pending
        &&& registration(before.send_waker, waker, after.send_waker)
        &&& after == (ControlView { send_waker: after.send_waker, ..before })
    } else {
        &&& res == FlushPoll::Ready
        &&& after == before
    }
}

/// A shutdown is done when the transmit direction is closed. Until then it is
/// asked for, and the caller is registered.
pub open spec fn shutdown_outcome(
    before: ControlView,
    waker: Waker,
    after: ControlView,
    res: ShutdownPoll,
) -> bool {
    if before.send_state == SocketState::Closed {
        &&& res == ShutdownPoll::Ready
        &&& after == before
    } else {
        &&& res == (ShutdownPoll::Pending { notify: true })
        &&& registration(before.shutdown_waker, waker, after.shutdown_waker)
        &&& after == (ControlView {
            send_state: SocketState::Closing,
            shutdown_waker: after.shutdown_waker,
            ..before
        })
    }
}

impl View for SocketControl {
    type V = ControlView;

    open spec fn view(&self) -> ControlView {
        ControlView {
            send: ring_contents(self.send_buffer),
            send_capacity: ring_capacity(self.send_buffer),
            recv: ring_contents(self.recv_buffer),
            recv_capacity: ring_capacity(self.recv_buffer),
            send_waker: self.send_waker,
            recv_waker: self.recv_waker,
            shutdown_waker: self.shutdown_waker,
            send_state: self.send_state,
            recv_state: self.recv_state,
        }
    }
}

impl SocketControl {
    /// Creates the control of a new stream.
    pub fn new() -> (control: SocketControl)
        ensures
            control@ == ControlView::fresh(),
    {
        SocketControl {
            send_buffer: ring_new(vec![0u8; BUFFER_SIZE]),
            recv_buffer: ring_new(vec![0u8; BUFFER_SIZE]),
            send_waker: None,
            recv_waker: None,
            shutdown_waker: None,
            send_state: SocketState::Active,
            recv_state: SocketState::Active,
        }
    }

    /// Takes out the waker of the task that waits to write, if there is one.
    #[must_use]
    pub fn wake_sender(&mut self) -> (waker: Option<Waker>)
        ensures
            waker == old(self)@.send_waker,
            final(self)@ == (ControlView { send_waker: None, ..old(self)@ }),
    {
        self.send_waker.take()
    }

    /// Takes out the waker of the task that waits to read, if there is one.
    #[must_use]
    pub fn wake_receiver(&mut self) -> (waker: Option<Waker>)
        ensures
            waker == old(self)@.recv_waker,
            final(self)@ == (ControlView { recv_waker: None, ..old(self)@ }),
    {
        self.recv_waker.take()
    }

    /// Takes out the waker of the task that waits for the shutdown, if there is one.
    #[must_use]
    pub fn wake_shutdown(&mut self) -> (waker: Option<Waker>)
        ensures
            waker == old(self)@.shutdown_waker,
            final(self)@ == (ControlView { shutdown_waker: None, ..old(self)@ }),
    {
        self.shutdown_waker.take()
    }

    /// Closes both directions. Everybody who waits is to be woken.
    pub fn close(&mut self) -> (wakeups: Wakeups)
        ensures
            final(self)@ == old(self)@.shut(),
            wakeups == old(self)@.waiting(),
    {
        self.send_state = SocketState::Closed;
        self.recv_state = SocketState::Closed;
        let sender = self.wake_sender();
        let receiver = self.wake_receiver();
        let shutdown = self.wake_shutdown();
        Wakeups { sender, receiver, shutdown }
    }

    /// Whether the application has closed the stream and everything it wrote has
    /// gone to the socket.
    pub fn ready_to_initiate_close(&self) -> (ready: bool)
        ensures
            ready == self@.drained(),
    {
        matches!(self.send_state, SocketState::Closing) && ring_is_empty(&self.send_buffer)
    }

    /// Whether both directions are closed.
    pub fn is_stream_dropped(&self) -> (dropped: bool)
        ensures
            dropped == self@.dropped(),
    {
        matches!(self.send_state, SocketState::Closed) && matches!(
            self.recv_state,
            SocketState::Closed
        )
    }

    /// Closes the transmit half of the socket where that is asked for.
    pub fn handle_application_close(&self, socket: &mut TcpSocket<'static>)
        ensures
            tcp_view(*final(socket)) == self@.after_close(tcp_view(*old(socket))),
    {
        let should_initiate_close = match self.send_state {
            SocketState::Closing => ring_is_empty(&self.send_buffer),
            SocketState::Closed => self.is_stream_dropped(),
            SocketState::Active => tcp_state(socket) == TcpState::CloseWait,
        };
        if should_initiate_close && tcp_may_send(socket) {
            tcp_close(socket);
        }
    }

    /// Whether the stream is gone and its socket can send nothing more.
    pub fn should_force_cleanup(&self, socket: &TcpSocket<'static>) -> (cleanup: bool)
        ensures
            cleanup == self@.abandoned(tcp_view(*socket)),
    {
        self.is_stream_dropped() && !tcp_may_send(socket)
    }

    /// Ends the shutdown that the application asked for once the socket can send
    /// nothing more. Returns the task that waited for that.
    pub fn sync_control_state(&mut self, socket: &TcpSocket<'static>) -> (waker: Option<Waker>)
        ensures
            final(self)@ == old(self)@.after_sync(tcp_view(*socket)).control,
            waker == old(self)@.after_sync(tcp_view(*socket)).wakeups.shutdown,
    {
        if matches!(self.send_state, SocketState::Closing) && !tcp_may_send(socket) {
            self.send_state = SocketState::Closed;
            self.wake_shutdown()
        } else {
            None
        }
    }

    /// Moves what the socket received to the receive buffer, as far as there is
    /// room. Returns the task that waits to read, where it has reason to look.
    pub fn handle_socket_read(&mut self, socket: &mut TcpSocket<'static>) -> (waker: Option<Waker>)
        ensures
            final(self)@ == old(self)@.after_read(tcp_view(*old(socket))).control,
            tcp_view(*final(socket)) == old(self)@.after_read(tcp_view(*old(socket))).socket,
            waker == old(self)@.after_read(tcp_view(*old(socket))).wakeups.receiver,
    {
        let ghost control = self@;
        let ghost view = tcp_view(*socket);
        let mut should_wake = false;
        let ghost mut moved: int = 0;

        while tcp_can_recv(socket) && !ring_is_full(&self.recv_buffer)
            invariant
                0 <= moved <= view.rx.len(),
                self@ == (ControlView { recv: control.recv + view.rx.take(moved), ..control }),
                tcp_view(*socket) == (TcpView { rx: view.rx.skip(moved), ..view }),
                0 <= moved <= room(control.recv.len(), control.recv_capacity),
                should_wake == (moved > 0),
            ensures
                moved == control.intake(view),
            decreases view.rx.len() - moved,
        {
            match tcp_recv(socket, &mut self.recv_buffer) {
                Ok(n) => {
                    proof {
                        assert(view.rx.take(moved) + view.rx.skip(moved).take(n as int)
                            =~= view.rx.take(moved + n));
                        assert(view.rx.skip(moved).skip(n as int) =~= view.rx.skip(moved + n));
                        moved = moved + n;
                    }
                    should_wake = true;
                },
                Err(_) => {
                    self.recv_state = SocketState::Closed;
                    should_wake = true;
                    break;
                },
            }
        }

        if matches!(self.recv_state, SocketState::Active) && !tcp_may_recv(socket)
            && ring_is_empty(&self.recv_buffer) {
            let in_handshake = matches!(
                tcp_state(socket),
                TcpState::Listen | TcpState::SynSent | TcpState::SynReceived
            );
            if !in_handshake {
                self.recv_state = SocketState::Closed;
                should_wake = true;
            }
        }
        if should_wake {
            self.wake_receiver()
        } else {
            None
        }
    }

    /// Moves what the application wrote to the socket, as far as that has room.
    /// Returns the task that waits to write, where something was moved, and the
    /// one that waits for the shutdown, where nothing is left to be moved.
    pub fn handle_socket_write(&mut self, socket: &mut TcpSocket<'static>) -> (wakeups: Wakeups)
        ensures
            final(self)@ == old(self)@.after_write(tcp_view(*old(socket))).control,
            tcp_view(*final(socket)) == old(self)@.after_write(tcp_view(*old(socket))).socket,
            wakeups == old(self)@.after_write(tcp_view(*old(socket))).wakeups,
    {
        let ghost control = self@;
        let ghost view = tcp_view(*socket);
        let mut should_wake_sender = false;
        let mut should_wake_shutdown = false;
        let ghost mut moved: int = 0;

        while tcp_can_send(socket) && !ring_is_empty(&self.send_buffer)
            invariant
                0 <= moved <= control.send.len(),
                0 <= moved <= room(view.tx.len(), view.tx_capacity),
                moved > 0 ==> view.may_send(),
                self@ == (ControlView { send: control.send.skip(moved), ..control }),
                tcp_view(*socket) == (TcpView { tx: view.tx + control.send.take(moved), ..view }),
                should_wake_sender == (moved > 0),
                !should_wake_shutdown,
            ensures
                moved == control.outflow(view),
            decreases control.send.len() - moved,
        {
            match tcp_send(socket, &mut self.send_buffer) {
                Ok(n) => {
                    proof {
                        assert(control.send.take(moved) + control.send.skip(moved).take(n as int)
                            =~= control.send.take(moved + n));
                        assert(control.send.skip(moved).skip(n as int) =~= control.send.skip(
                            moved + n,
                        ));
                        moved = moved + n;
                    }
                    should_wake_sender = true;
                },
                Err(_) => {
                    self.send_state = SocketState::Closed;
                    should_wake_sender = true;
                    should_wake_shutdown = true;
                    break;
                },
            }
        }

        let sender = if should_wake_sender {
            self.wake_sender()
        } else {
            None
        };
        let shutdown = if should_wake_shutdown || self.ready_to_initiate_close() {
            self.wake_shutdown()
        } else {
            None
        };
        Wakeups { sender, receiver: None, shutdown }
    }

    /// Services a stream and its socket once: closes the socket where that is asked
    /// for, moves octets both ways, and takes note of the state of the socket.
    /// Returns who is to be woken, and whether the socket is done.
    pub fn process_socket(&mut self, socket: &mut TcpSocket<'static>) -> (res: (Wakeups, bool))
        ensures
            final(self)@ == old(self)@.step(tcp_view(*old(socket))).control,
            tcp_view(*final(socket)) == old(self)@.step(tcp_view(*old(socket))).socket,
            res.0 == old(self)@.step(tcp_view(*old(socket))).wakeups,
            res.1 == old(self)@.step(tcp_view(*old(socket))).finished,
    {
        if tcp_state(socket) == TcpState::Closed {
            return (self.close(), true);
        }
        self.handle_application_close(socket);
        if self.should_force_cleanup(socket) {
            tcp_abort(socket);
            return (self.close(), true);
        }
        let receiver = self.handle_socket_read(socket);
        let written = self.handle_socket_write(socket);
        let synced = self.sync_control_state(socket);
        let shutdown = match written.shutdown {
            Some(waker) => Some(waker),
            None => synced,
        };
        (Wakeups { sender: written.sender, receiver, shutdown }, false)
    }

    /// Reads buffered octets to the front of `buf`.
    pub fn poll_read(&mut self, waker: &Waker, buf: &mut [u8]) -> (res: ReadPoll)
        ensures
            read_outcome(old(self)@, *waker, old(buf)@, final(self)@, final(buf)@, res),
    {
        if ring_is_empty(&self.recv_buffer) {
            if matches!(self.recv_state, SocketState::Closed) {
                proof {
                    assert(self@.recv.skip(0) =~= self@.recv);
                    assert(self@.recv.take(0) + buf@.skip(0) =~= buf@);
                }
                return ReadPoll::Ready { read: 0, notify: false };
            }
            register_waker(&mut self.recv_waker, waker);
            return ReadPoll::Pending;
        }
        let read: usize = ring_dequeue(&mut self.recv_buffer, buf);
        ReadPoll::Ready { read, notify: read > 0 }
    }

    /// Buffers octets from the front of `buf`.
    pub fn poll_write(&mut self, waker: &Waker, buf: &[u8]) -> (res: WritePoll)
        ensures
            write_outcome(old(self)@, *waker, buf@, final(self)@, res),
    {
        if !matches!(self.send_state, SocketState::Active) {
            return WritePoll::BrokenPipe;
        }
        if ring_is_full(&self.send_buffer) {
            register_waker(&mut self.send_waker, waker);
            return WritePoll::Pending;
        }
        let written: usize = ring_enqueue(&mut self.send_buffer, buf);
        WritePoll::Ready { written, notify: written > 0 }
    }

    /// Waits until everything that was written has gone to the socket.
    pub fn poll_flush(&mut self, waker: &Waker) -> (res: FlushPoll)
        ensures
            flush_outcome(old(self)@, *waker, final(self)@, res),
    {
        if matches!(self.send_state, SocketState::Closed) {
            return FlushPoll::BrokenPipe;
        }
        if !ring_is_empty(&self.send_buffer) {
            register_waker(&mut self.send_waker, waker);
            return FlushPoll::Pending;
        }
        FlushPoll::Ready
    }

    /// Asks for the transmit direction to be closed, and waits for that.
    pub fn poll_shutdown(&mut self, waker: &Waker) -> (res: ShutdownPoll)
        ensures
            shutdown_outcome(old(self)@, *waker, final(self)@, res),
    {
        match self.send_state {
            SocketState::Closed => return ShutdownPoll::Ready,
            SocketState::Closing => {},
            SocketState::Active => {
                self.send_state = SocketState::Closing;
            },
        }
        register_waker(&mut self.shutdown_waker, waker);
        ShutdownPoll::Pending { notify: true }
    }

    /// Lets go of the stream. What was written is still to be sent; everybody who
    /// waits is to be woken.
    pub fn release(&mut self) -> (wakeups: Wakeups)
        ensures
            final(self)@ == old(self)@.released(),
            wakeups == old(self)@.waiting(),
    {
        if matches!(self.send_state, SocketState::Active) {
            self.send_state = if ring_is_empty(&self.send_buffer) {
                SocketState::Closed
            } else {
                SocketState::Closing
            };
        }
        if matches!(self.recv_state, SocketState::Active) {
            self.recv_state = SocketState::Closed;
        }
        let sender = self.wake_sender();
        let receiver = self.wake_receiver();
        let shutdown = self.wake_shutdown();
        Wakeups { sender, receiver, shutdown }
    }
}

} // verus!

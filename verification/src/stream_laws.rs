//! What holds of a TCP stream whatever happens to it.
use crate::control::{
    flush_outcome, read_outcome, shutdown_outcome, write_outcome, ControlView, FlushPoll, ReadPoll,
    ShutdownPoll, SocketState, WritePoll,
};
use crate::ring::least;
use crate::socket::{TcpState, TcpView};
use crate::waker::Wakeups;
use std::task::Waker;
use vstd::prelude::*;

verus! {

/// How far a direction has been closed, as a number.
pub open spec fn stage(state: SocketState) -> int {
    match state {
        SocketState::Active => 0,
        SocketState::Closing => 1,
        SocketState::Closed => 2,
    }
}

/// Whether no direction of the stream is less closed than it was.
pub open spec fn no_reopening(before: ControlView, after: ControlView) -> bool {
    &&& stage(before.send_state) <= stage(after.send_state)
    &&& stage(before.recv_state) <= stage(after.recv_state)
}

/// Whether the buffers of a stream hold no more than they can.
pub open spec fn within_capacity(control: ControlView) -> bool {
    &&& control.send.len() <= control.send_capacity
    &&& control.recv.len() <= control.recv_capacity
}

/// Whether a reader of the stream would have to wait.
pub open spec fn read_blocks(control: ControlView) -> bool {
    control.recv.len() == 0 && control.recv_state != SocketState::Closed
}

/// Whether a writer to the stream would have to wait.
pub open spec fn write_blocks(control: ControlView) -> bool {
    control.send_state == SocketState::Active && control.send.len() == control.send_capacity
}

/// Servicing a stream loses, repeats and reorders nothing: what was received and
/// not read, in the stream and then in the socket, is the same before and after,
/// and so is what was written and not acknowledged, in the socket and then in the
/// stream.
pub proof fn law_step_conserves_octets(control: ControlView, socket: TcpView)
    ensures
        ({
            let next = control.step(socket);
            &&& next.control.recv + next.socket.rx == control.recv + socket.rx
            &&& next.socket.tx + next.control.send == socket.tx + control.send
        }),
{
    let next = control.step(socket);
    if !next.finished {
        let closed = control.after_close(socket);
        let n = control.intake(closed);
        assert(control.recv + socket.rx.take(n) + socket.rx.skip(n) =~= control.recv + socket.rx);
        let read = control.after_read(closed);
        let m = read.control.outflow(read.socket);
        assert(socket.tx + control.send.take(m) + control.send.skip(m) =~= socket.tx
            + control.send);
    }
}

/// Servicing a stream keeps its buffers, and those of its socket, within what they
/// can hold, and changes no capacity.
pub proof fn law_step_keeps_capacities(control: ControlView, socket: TcpView)
    requires
        within_capacity(control),
        socket.tx.len() <= socket.tx_capacity,
        socket.rx.len() <= socket.rx_capacity,
    ensures
        ({
            let next = control.step(socket);
            &&& within_capacity(next.control)
            &&& next.control.send_capacity == control.send_capacity
            &&& next.control.recv_capacity == control.recv_capacity
            &&& next.socket.tx.len() <= next.socket.tx_capacity
            &&& next.socket.rx.len() <= next.socket.rx_capacity
            &&& next.socket.tx_capacity == socket.tx_capacity
            &&& next.socket.rx_capacity == socket.rx_capacity
        }),
{
}

/// Servicing a stream reopens no direction.
pub proof fn law_step_never_reopens(control: ControlView, socket: TcpView)
    ensures
        no_reopening(control, control.step(socket).control),
{
}

/// Closing a stream, or letting go of it, reopens no direction.
pub proof fn law_closing_never_reopens(control: ControlView)
    ensures
        no_reopening(control, control.shut()),
        no_reopening(control, control.released()),
{
}

/// No attempt of the application to use a stream reopens a direction, and each
/// keeps the buffers within what they can hold.
pub proof fn law_polls_never_reopen(
    before: ControlView,
    waker: Waker,
    read_buf: Seq<u8>,
    filled: Seq<u8>,
    write_buf: Seq<u8>,
    after: ControlView,
)
    requires
        ({
            ||| exists|res: ReadPoll|
                #[trigger] read_outcome(before, waker, read_buf, after, filled, res)
            ||| exists|res: WritePoll|
                #[trigger] write_outcome(before, waker, write_buf, after, res)
            ||| exists|res: FlushPoll| #[trigger] flush_outcome(before, waker, after, res)
            ||| exists|res: ShutdownPoll| #[trigger] shutdown_outcome(before, waker, after, res)
        }),
    ensures
        no_reopening(before, after),
        within_capacity(before) ==> within_capacity(after),
{
}

/// Closing a stream twice is closing it once, and the second time nobody waits.
pub proof fn law_close_is_idempotent(control: ControlView)
    ensures
        control.shut().shut() == control.shut(),
        control.shut().waiting() == Wakeups::nobody(),
        control.shut().dropped(),
{
}

/// Closing a stream keeps what it received: reads still give it, and tell of the
/// end of the stream only when all of it was read.
pub proof fn law_closed_stream_is_read_to_its_end(
    control: ControlView,
    waker: Waker,
    buf: Seq<u8>,
    after: ControlView,
    filled: Seq<u8>,
    res: ReadPoll,
)
    requires
        read_outcome(control.shut(), waker, buf, after, filled, res),
        buf.len() > 0,
    ensures
        res == (ReadPoll::Ready {
            read: least(buf.len() as int, control.recv.len() as int) as usize,
            notify: control.recv.len() > 0,
        }),
        filled == control.recv.take(least(buf.len() as int, control.recv.len() as int)) + buf.skip(
            least(buf.len() as int, control.recv.len() as int),
        ),
        after.recv == control.recv.skip(least(buf.len() as int, control.recv.len() as int)),
        after.dropped(),
{
}

/// A reader with room for more is told of the end of the stream exactly when
/// nothing is buffered and the receive direction is closed.
pub proof fn law_end_of_stream(
    before: ControlView,
    waker: Waker,
    buf: Seq<u8>,
    after: ControlView,
    filled: Seq<u8>,
    res: ReadPoll,
)
    requires
        read_outcome(before, waker, buf, after, filled, res),
        0 < buf.len() <= usize::MAX,
    ensures
        (res matches ReadPoll::Ready { read, notify } && read == 0) <==> before.recv.len() == 0
            && before.recv_state == SocketState::Closed,
{
}

/// While its socket is not done, servicing a stream closes its receive direction
/// only when everything that was received has been read.
pub proof fn law_receive_direction_closes_after_the_data(control: ControlView, socket: TcpView)
    requires
        control.recv_state != SocketState::Closed,
        control.step(socket).control.recv_state == SocketState::Closed,
        !control.step(socket).finished,
    ensures
        control.recv.len() == 0,
        socket.rx.len() == 0,
{
}

/// After a close, a release or a request to shut down, every write is refused and
/// leaves the stream as it was.
pub proof fn law_writes_are_refused_after_closing(
    before: ControlView,
    shutting: ControlView,
    waker: Waker,
    shutdown: ShutdownPoll,
    control: ControlView,
    writer: Waker,
    buf: Seq<u8>,
    after: ControlView,
    res: WritePoll,
)
    requires
        shutdown_outcome(before, waker, shutting, shutdown),
        control == shutting || control == before.shut() || control == before.released(),
        write_outcome(control, writer, buf, after, res),
    ensures
        res == WritePoll::BrokenPipe,
        after == control,
{
}

/// A shutdown that the application asked for closes the transmit half of the
/// socket only when everything that was written has gone to the socket.
pub proof fn law_shutdown_sends_everything_first(control: ControlView, socket: TcpView)
    requires
        control.send_state == SocketState::Closing,
        control.after_close(socket) != socket,
    ensures
        control.send.len() == 0,
        control.step(socket).control.send_state == SocketState::Closed,
{
}

/// Letting go of a stream discards nothing that was written: it is still to be
/// sent, and the stream counts as dropped only where nothing is left.
pub proof fn law_release_keeps_what_was_written(control: ControlView)
    ensures
        control.released().send == control.send,
        control.send_state == SocketState::Active && control.send.len() > 0
            ==> control.released().send_state == SocketState::Closing
            && !control.released().dropped(),
        control.send_state == SocketState::Active && control.send.len() == 0
            && control.recv_state != SocketState::Closing ==> control.released().dropped(),
{
}

/// What a write buffered reaches the socket behind everything that was written
/// before it, with nothing between.
pub proof fn law_writes_reach_the_socket_in_order(
    before: ControlView,
    waker: Waker,
    buf: Seq<u8>,
    after: ControlView,
    written: usize,
    notify: bool,
    socket: TcpView,
)
    requires
        write_outcome(before, waker, buf, after, WritePoll::Ready { written, notify }),
        within_capacity(before),
        before.send_capacity <= usize::MAX,
    ensures
        written <= buf.len(),
        ({
            let next = after.step(socket);
            next.socket.tx + next.control.send == socket.tx + before.send + buf.take(
                written as int,
            )
        }),
{
    law_step_conserves_octets(after, socket);
    assert(socket.tx + (before.send + buf.take(written as int)) =~= socket.tx + before.send
        + buf.take(written as int));
}

/// What a reader is given is what the stream and its socket held first, in order,
/// and what it was not given is left, in order.
pub proof fn law_reads_give_what_was_received_in_order(
    control: ControlView,
    socket: TcpView,
    waker: Waker,
    buf: Seq<u8>,
    after: ControlView,
    filled: Seq<u8>,
    read: usize,
    notify: bool,
)
    requires
        read_outcome(
            control.step(socket).control,
            waker,
            buf,
            after,
            filled,
            ReadPoll::Ready { read, notify },
        ),
        buf.len() <= usize::MAX,
    ensures
        read <= filled.len(),
        filled.take(read as int) + after.recv + control.step(socket).socket.rx == control.recv
            + socket.rx,
{
    law_step_conserves_octets(control, socket);
    let next = control.step(socket);
    let n = least(buf.len() as int, next.control.recv.len() as int);
    assert(filled.take(read as int) =~= next.control.recv.take(n));
    assert(next.control.recv.take(n) + next.control.recv.skip(n) =~= next.control.recv);
}

/// Nobody who waits to read is forgotten: where servicing a stream gives a blocked
/// reader something to read, or the end of the stream, it hands out the reader's
/// waker.
pub proof fn law_blocked_reader_is_woken(control: ControlView, socket: TcpView)
    requires
        read_blocks(control),
        !read_blocks(control.step(socket).control),
    ensures
        control.step(socket).wakeups.receiver == control.recv_waker,
{
}

/// Nobody who waits to write is forgotten: where servicing a stream makes room for
/// a blocked writer, or closes the direction, it hands out the writer's waker.
pub proof fn law_blocked_writer_is_woken(control: ControlView, socket: TcpView)
    requires
        write_blocks(control),
        !write_blocks(control.step(socket).control),
    ensures
        control.step(socket).wakeups.sender == control.send_waker,
{
    let read = control.after_read(control.after_close(socket));
    assert(control.send.skip(0) =~= control.send);
}

/// Nobody who waits for a flush is forgotten: where servicing a stream passes on
/// the last of what was written, it hands out the waker of who waits for that.
pub proof fn law_waiting_flush_is_woken(control: ControlView, socket: TcpView)
    requires
        control.send.len() > 0,
        control.step(socket).control.send.len() == 0,
    ensures
        control.step(socket).wakeups.sender == control.send_waker,
{
    assert(control.send.skip(0) =~= control.send);
}

/// Nobody who waits for a shutdown is forgotten: where servicing a stream closes
/// its transmit direction, it hands out the waker of who waits for that.
pub proof fn law_waiting_shutdown_is_woken(control: ControlView, socket: TcpView)
    requires
        control.send_state != SocketState::Closed,
        control.step(socket).control.send_state == SocketState::Closed,
    ensures
        control.step(socket).wakeups.shutdown == control.shutdown_waker,
{
}

/// A waker is handed out or kept, never lost: whatever slot it is in, servicing a
/// stream leaves it there or hands it out.
pub proof fn law_step_loses_no_waker(control: ControlView, socket: TcpView)
    ensures
        ({
            let next = control.step(socket);
            &&& next.wakeups.sender == control.send_waker && next.control.send_waker is None
                || next.wakeups.sender is None && next.control.send_waker == control.send_waker
            &&& next.wakeups.receiver == control.recv_waker && next.control.recv_waker is None
                || next.wakeups.receiver is None && next.control.recv_waker == control.recv_waker
            &&& next.wakeups.shutdown == control.shutdown_waker
                && next.control.shutdown_waker is None || next.wakeups.shutdown is None
                && next.control.shutdown_waker == control.shutdown_waker
        }),
{
}

/// Once servicing a stream found its socket done, both directions are closed,
/// nobody waits, and the socket is closed.
pub proof fn law_finished_stream_is_closed(control: ControlView, socket: TcpView)
    requires
        control.step(socket).finished,
    ensures
        control.step(socket).control == control.shut(),
        control.step(socket).wakeups == control.waiting(),
        control.step(socket).socket.state == TcpState::Closed,
{
}

/// While the connection is being established, servicing a stream that was not
/// dropped neither ends it nor takes anything from it.
pub proof fn law_handshake_keeps_the_stream(control: ControlView, socket: TcpView)
    requires
        socket.in_handshake(),
        !control.dropped(),
    ensures
        !control.step(socket).finished,
        control.step(socket).control.recv_state == control.recv_state,
        control.step(socket).control.send == control.send,
        control.step(socket).socket.state == socket.state,
{
    assert(control.send.skip(0) =~= control.send);
}

/// Servicing a stream whose two directions are closed ends it at once, whatever the
/// state of its socket.
pub proof fn law_dropped_stream_is_finished_at_once(control: ControlView, socket: TcpView)
    requires
        control.dropped(),
    ensures
        control.step(socket).finished,
        control.step(socket).socket.state == TcpState::Closed,
{
}

/// A socket that is not done is not closed: servicing a stream leaves no closed
/// socket behind.
pub proof fn law_unfinished_socket_is_not_closed(control: ControlView, socket: TcpView)
    requires
        !control.step(socket).finished,
    ensures
        control.step(socket).socket.state != TcpState::Closed,
{
}

} // verus!

//! Laws on using a stream.
use crate::addr::SocketAddr;
use crate::control::{
    flush_outcome, read_outcome, shutdown_outcome, write_outcome, ControlView, FlushPoll, ReadPoll,
    ShutdownPoll, SocketControl, SocketState, WritePoll,
};
use crate::laws::servicing::{let_go, same_capacities, same_receive_side, same_send_side};
use crate::ring::{ring_capacity, ring_contents};
use crate::shared::{turn, SharedControl};
use crate::stream::TcpStream;
use crate::waker::{known_alike, register_waker, wake_target, Wakeups};
use std::task::Waker;
use vstd::prelude::*;

verus! {

/// Whether a slot has a task registered: it holds a waker of the task, and the one
/// that was there, where that is known to wake the task.
pub open spec fn waits(before: Option<Waker>, waker: Waker, after: Option<Waker>) -> bool {
    &&& after is Some
    &&& wake_target(after->0) == wake_target(waker)
    &&& before is Some && known_alike(before->0, waker) ==> after == before
}

/// A task is registered once, and any other task gives way to it.
pub proof fn law_task_is_registered(slot: &mut Option<Waker>, waker: Waker)
    requires
        call_ensures(register_waker, (slot, &waker), ()),
    ensures
        waits(*old(slot), waker, *final(slot)),
{
}

/// What a stream holds is what is in its fields.
pub proof fn law_stream_shows_its_fields(control: SocketControl)
    ensures
        control@.send == ring_contents(control.send_buffer),
        control@.recv == ring_contents(control.recv_buffer),
        control@.send_capacity == ring_capacity(control.send_buffer),
        control@.recv_capacity == ring_capacity(control.recv_buffer),
        control@.send_state == control.send_state,
        control@.recv_state == control.recv_state,
        control@.send_waker == control.send_waker,
        control@.recv_waker == control.recv_waker,
        control@.shutdown_waker == control.shutdown_waker,
{
}

/// Whether a read did what it is for: it waits exactly where nothing is there and
/// more can come. Otherwise it gives as much as is there and `buf` holds, the oldest
/// octets first, and leaves the rest in place, in the stream and in `buf`. Who drives
/// the socket is told where something was taken.
pub open spec fn reads(
    before: ControlView,
    waker: Waker,
    buf: Seq<u8>,
    after: ControlView,
    filled: Seq<u8>,
    res: ReadPoll,
) -> bool {
    &&& res is Pending <==> before.recv.len() == 0 && before.recv_state != SocketState::Closed
    &&& res is Pending ==> {
        &&& waits(before.recv_waker, waker, after.recv_waker)
        &&& after.recv == before.recv
        &&& filled == buf
    }
    &&& res matches ReadPoll::Ready { read, notify } ==> {
        &&& read == before.recv.len() || read == buf.len()
        &&& read <= before.recv.len()
        &&& read <= buf.len()
        &&& filled.len() == buf.len()
        &&& filled.take(read as int) + after.recv == before.recv
        &&& filled.skip(read as int) == buf.skip(read as int)
        &&& notify <==> read > 0
        &&& after.recv_waker == before.recv_waker
    }
    &&& after.recv_state == before.recv_state
    &&& same_send_side(before, after)
    &&& same_capacities(before, after)
}

/// Whether a write did what it is for: it is refused exactly where the application
/// closed the direction, and waits exactly where there is no room. Otherwise it takes
/// as much as there is room for, behind what is there. Who drives the socket is told
/// where something was taken.
pub open spec fn writes(
    before: ControlView,
    waker: Waker,
    buf: Seq<u8>,
    after: ControlView,
    res: WritePoll,
) -> bool {
    &&& res is BrokenPipe <==> before.send_state != SocketState::Active
    &&& res is Pending <==> before.send_state == SocketState::Active && before.send.len()
        == before.send_capacity
    &&& res is Pending ==> waits(before.send_waker, waker, after.send_waker)
    &&& !(res is Pending) ==> after.send_waker == before.send_waker
    &&& !(res is Ready) ==> after.send == before.send
    &&& res matches WritePoll::Ready { written, notify } ==> {
        &&& written == buf.len() || before.send.len() + written == before.send_capacity
        &&& written <= buf.len()
        &&& before.send.len() + written <= before.send_capacity
        &&& after.send == before.send + buf.take(written as int)
        &&& notify <==> written > 0
    }
    &&& after.send_state == before.send_state
    &&& after.shutdown_waker == before.shutdown_waker
    &&& same_receive_side(before, after)
    &&& same_capacities(before, after)
}

/// Whether a flush did what it is for: it is refused exactly where the direction is
/// closed, waits exactly where something is left to be sent, and changes nothing.
pub open spec fn flushes(
    before: ControlView,
    waker: Waker,
    after: ControlView,
    res: FlushPoll,
) -> bool {
    &&& res is BrokenPipe <==> before.send_state == SocketState::Closed
    &&& res is Pending <==> before.send_state != SocketState::Closed && before.send.len() > 0
    &&& res is Pending ==> waits(before.send_waker, waker, after.send_waker)
    &&& !(res is Pending) ==> after.send_waker == before.send_waker
    &&& after.send == before.send
    &&& after.send_state == before.send_state
    &&& after.shutdown_waker == before.shutdown_waker
    &&& same_receive_side(before, after)
    &&& same_capacities(before, after)
}

/// Whether a shutdown did what it is for: it is done exactly where the direction is
/// closed. Until then it is asked for, who drives the socket is told, and the task
/// waits. What was written stays to be sent.
pub open spec fn shuts_down(
    before: ControlView,
    waker: Waker,
    after: ControlView,
    res: ShutdownPoll,
) -> bool {
    &&& res is Ready <==> before.send_state == SocketState::Closed
    &&& res is Ready ==> after.send_state == SocketState::Closed && after.shutdown_waker
        == before.shutdown_waker
    &&& res matches ShutdownPoll::Pending { notify } ==> {
        &&& notify
        &&& after.send_state == SocketState::Closing
        &&& waits(before.shutdown_waker, waker, after.shutdown_waker)
    }
    &&& after.send == before.send
    &&& after.send_waker == before.send_waker
    &&& same_receive_side(before, after)
    &&& same_capacities(before, after)
}

/// A read of a control does what it is for.
pub proof fn law_control_is_read(
    control: &mut SocketControl,
    waker: Waker,
    buf: &mut [u8],
    res: ReadPoll,
)
    requires
        call_ensures(SocketControl::poll_read, (control, &waker, buf), res),
    ensures
        reads(old(control)@, waker, old(buf)@, final(control)@, final(buf)@, res),
{
    lemma_reads(old(control)@, waker, old(buf)@, final(control)@, final(buf)@, res);
}

/// A read as the control states it does what it is for.
proof fn lemma_reads(
    before: ControlView,
    waker: Waker,
    buf: Seq<u8>,
    after: ControlView,
    filled: Seq<u8>,
    res: ReadPoll,
)
    requires
        read_outcome(before, waker, buf, after, filled, res),
    ensures
        reads(before, waker, buf, after, filled, res),
{
    if res is Ready {
        let n = if buf.len() <= before.recv.len() {
            buf.len() as int
        } else {
            before.recv.len() as int
        };
        assert(filled.take(n) =~= before.recv.take(n));
        assert(filled.skip(n) =~= buf.skip(n));
        assert(before.recv.take(n) + before.recv.skip(n) =~= before.recv);
    }
}

/// A write of a control does what it is for.
pub proof fn law_control_is_written(
    control: &mut SocketControl,
    waker: Waker,
    buf: &[u8],
    res: WritePoll,
)
    requires
        call_ensures(SocketControl::poll_write, (control, &waker, buf), res),
    ensures
        writes(old(control)@, waker, buf@, final(control)@, res),
{
}

/// A flush of a control does what it is for.
pub proof fn law_control_is_flushed(control: &mut SocketControl, waker: Waker, res: FlushPoll)
    requires
        call_ensures(SocketControl::poll_flush, (control, &waker), res),
    ensures
        flushes(old(control)@, waker, final(control)@, res),
{
}

/// A shutdown of a control does what it is for.
pub proof fn law_control_is_shut_down(
    control: &mut SocketControl,
    waker: Waker,
    res: ShutdownPoll,
)
    requires
        call_ensures(SocketControl::poll_shutdown, (control, &waker), res),
    ensures
        shuts_down(old(control)@, waker, final(control)@, res),
{
}

/// A read of a stream does what it is for, to the control behind the lock of the
/// stream.
pub proof fn law_stream_is_read(stream: TcpStream, waker: Waker, buf: &mut [u8], res: ReadPoll)
    requires
        call_ensures(TcpStream::poll_read, (&stream, &waker, buf), res),
    ensures
        exists|before: ControlView, after: ControlView|
            turn(*stream.control, before, after) && #[trigger] reads(
                before,
                waker,
                old(buf)@,
                after,
                final(buf)@,
                res,
            ),
{
    let (before, after) = choose|before: ControlView, after: ControlView|
        turn(*stream.control, before, after) && #[trigger] read_outcome(
            before,
            waker,
            old(buf)@,
            after,
            final(buf)@,
            res,
        );
    lemma_reads(before, waker, old(buf)@, after, final(buf)@, res);
}

/// A write to a stream does what it is for, to the control behind the lock of the
/// stream.
pub proof fn law_stream_is_written(stream: TcpStream, waker: Waker, buf: &[u8], res: WritePoll)
    requires
        call_ensures(TcpStream::poll_write, (&stream, &waker, buf), res),
    ensures
        exists|before: ControlView, after: ControlView|
            turn(*stream.control, before, after) && #[trigger] writes(
                before,
                waker,
                buf@,
                after,
                res,
            ),
{
    let (before, after) = choose|before: ControlView, after: ControlView|
        turn(*stream.control, before, after) && #[trigger] write_outcome(
            before,
            waker,
            buf@,
            after,
            res,
        );
    assert(writes(before, waker, buf@, after, res));
}

/// A flush and a shutdown of a stream do what they are for, to the control behind the
/// lock of the stream.
pub proof fn law_stream_is_flushed_and_shut_down(
    stream: TcpStream,
    waker: Waker,
    flushed: FlushPoll,
    shut: ShutdownPoll,
)
    requires
        call_ensures(TcpStream::poll_flush, (&stream, &waker), flushed),
        call_ensures(TcpStream::poll_shutdown, (&stream, &waker), shut),
    ensures
        exists|before: ControlView, after: ControlView|
            turn(*stream.control, before, after) && #[trigger] flushes(
                before,
                waker,
                after,
                flushed,
            ),
        exists|before: ControlView, after: ControlView|
            turn(*stream.control, before, after) && #[trigger] shuts_down(
                before,
                waker,
                after,
                shut,
            ),
{
    let (before, after) = choose|before: ControlView, after: ControlView|
        turn(*stream.control, before, after) && #[trigger] flush_outcome(
            before,
            waker,
            after,
            flushed,
        );
    assert(flushes(before, waker, after, flushed));
    let (first, last) = choose|first: ControlView, last: ControlView|
        turn(*stream.control, first, last) && #[trigger] shutdown_outcome(
            first,
            waker,
            last,
            shut,
        );
    assert(shuts_down(first, waker, last, shut));
}

/// Letting go of a stream sends on what was written and wakes everybody who waits, at
/// the control behind the lock of the stream.
pub proof fn law_stream_is_released(stream: TcpStream, wakeups: Wakeups)
    requires
        call_ensures(TcpStream::release, (&stream,), wakeups),
    ensures
        exists|before: ControlView, after: ControlView|
            turn(*stream.control, before, after) && #[trigger] let_go(before, after, wakeups),
{
    let before = choose|before: ControlView|
        turn(*stream.control, before, before.released()) && wakeups
            == #[trigger] before.waiting();
    assert(let_go(before, before.released(), wakeups));
}

/// A stream is made of its two ends and its control, and tells its ends, the one that
/// opened it first.
pub proof fn law_stream_is_between_its_ends(
    src: SocketAddr,
    dst: SocketAddr,
    control: SharedControl,
    stream: TcpStream,
    ends: (SocketAddr, SocketAddr),
)
    requires
        call_ensures(TcpStream::new, (src, dst, control), stream),
        call_ensures(TcpStream::endpoints, (&stream,), ends),
    ensures
        ends == (src, dst),
        stream.control == control,
{
}

} // verus!

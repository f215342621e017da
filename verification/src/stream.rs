//! The application's end of a TCP connection.
use crate::addr::SocketAddr;
use crate::control::{
    flush_outcome, read_outcome, shutdown_outcome, write_outcome, ControlView, FlushPoll, ReadPoll,
    ShutdownPoll, WritePoll,
};
use crate::shared::{guard_mut, guarded, lock, turn, SharedControl};
use crate::waker::Wakeups;
use std::task::Waker;
use vstd::prelude::*;

verus! {

/// The application's end of a TCP connection. Every operation finds the control of
/// the stream as others left it, so each is stated for the state in which it found
/// the control behind the lock of the stream, and for the one in which it gave the
/// lock back.
pub struct TcpStream {
    /// The end that opened the connection.
    pub src_addr: SocketAddr,
    /// The end that the connection was opened to.
    pub dst_addr: SocketAddr,
    pub control: SharedControl,
}

impl TcpStream {
    /// Creates the stream between two ends.
    pub fn new(src_addr: SocketAddr, dst_addr: SocketAddr, control: SharedControl) -> (stream:
        TcpStream)
        ensures
            stream.src_addr == src_addr,
            stream.dst_addr == dst_addr,
            stream.control == control,
    {
        TcpStream { src_addr, dst_addr, control }
    }

    /// Reads what was received to the front of `buf`.
    pub fn poll_read(&self, waker: &Waker, buf: &mut [u8]) -> (res: ReadPoll)
        ensures
            exists|before: ControlView, after: ControlView|
                turn(*self.control, before, after) && #[trigger] read_outcome(
                    before,
                    *waker,
                    old(buf)@,
                    after,
                    final(buf)@,
                    res,
                ),
    {
        let mut guard = lock(&self.control);
        let ghost before = guarded(guard)@;
        let control = guard_mut(&mut guard);
        let res = control.poll_read(waker, buf);
        let ghost after = control@;
        assert(guarded(guard)@ == after && turn(*self.control, before, after));
        assert(read_outcome(before, *waker, old(buf)@, after, buf@, res));
        res
    }

    /// Writes from the front of `buf`.
    pub fn poll_write(&self, waker: &Waker, buf: &[u8]) -> (res: WritePoll)
        ensures
            exists|before: ControlView, after: ControlView|
                turn(*self.control, before, after) && #[trigger] write_outcome(
                    before,
                    *waker,
                    buf@,
                    after,
                    res,
                ),
    {
        let mut guard = lock(&self.control);
        let ghost before = guarded(guard)@;
        let control = guard_mut(&mut guard);
        let res = control.poll_write(waker, buf);
        let ghost after = control@;
        assert(guarded(guard)@ == after && turn(*self.control, before, after));
        assert(write_outcome(before, *waker, buf@, after, res));
        res
    }

    /// Waits until everything that was written has gone to the socket.
    pub fn poll_flush(&self, waker: &Waker) -> (res: FlushPoll)
        ensures
            exists|before: ControlView, after: ControlView|
                turn(*self.control, before, after) && #[trigger] flush_outcome(
                    before,
                    *waker,
                    after,
                    res,
                ),
    {
        let mut guard = lock(&self.control);
        let ghost before = guarded(guard)@;
        let control = guard_mut(&mut guard);
        let res = control.poll_flush(waker);
        let ghost after = control@;
        assert(guarded(guard)@ == after && turn(*self.control, before, after));
        assert(flush_outcome(before, *waker, after, res));
        res
    }

    /// Asks for the transmit direction to be closed, and waits for that.
    pub fn poll_shutdown(&self, waker: &Waker) -> (res: ShutdownPoll)
        ensures
            exists|before: ControlView, after: ControlView|
                turn(*self.control, before, after) && #[trigger] shutdown_outcome(
                    before,
                    *waker,
                    after,
                    res,
                ),
    {
        let mut guard = lock(&self.control);
        let ghost before = guarded(guard)@;
        let control = guard_mut(&mut guard);
        let res = control.poll_shutdown(waker);
        let ghost after = control@;
        assert(guarded(guard)@ == after && turn(*self.control, before, after));
        assert(shutdown_outcome(before, *waker, after, res));
        res
    }

    /// Lets go of the stream. Everybody who waited is to be woken.
    pub fn release(&self) -> (wakeups: Wakeups)
        ensures
            exists|before: ControlView|
                turn(*self.control, before, before.released()) && wakeups
                    == #[trigger] before.waiting(),
    {
        let mut guard = lock(&self.control);
        let ghost before = guarded(guard)@;
        let control = guard_mut(&mut guard);
        let wakeups = control.release();
        assert(guarded(guard)@ == before.released() && turn(
            *self.control,
            before,
            before.released(),
        ));
        assert(wakeups == before.waiting());
        wakeups
    }

    /// The two ends of the connection, as the application sees them: the one that
    /// opened it is local, the one that it was opened to is remote.
    pub fn endpoints(&self) -> (ends: (SocketAddr, SocketAddr))
        ensures
            ends == (self.src_addr, self.dst_addr),
    {
        (self.src_addr, self.dst_addr)
    }
}

} // verus!

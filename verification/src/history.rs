//! What holds of a TCP stream over its whole life.
use crate::control::{
    flush_outcome, read_outcome, shutdown_outcome, write_outcome, ControlView, FlushPoll, ReadPoll,
    ShutdownPoll, SocketState, WritePoll,
};
use crate::ring::least;
use crate::socket::TcpView;
use crate::stream_laws::{
    law_step_conserves_octets, no_reopening, read_blocks, stage, within_capacity, write_blocks,
};
use crate::waker::{registered, Wakeups};
use std::task::Waker;
use vstd::prelude::*;

verus! {

/// What can happen to a stream.
pub enum StreamEvent {
    /// It was serviced, with its socket in this state.
    Service(TcpView),
    /// The application tried to read to `buf`, which then held `filled`.
    Read { waker: Waker, buf: Seq<u8>, filled: Seq<u8>, res: ReadPoll },
    /// The application tried to write from `buf`.
    Write { waker: Waker, buf: Seq<u8>, res: WritePoll },
    /// The application tried to flush.
    Flush { waker: Waker, res: FlushPoll },
    /// The application tried to shut down.
    Shutdown { waker: Waker, res: ShutdownPoll },
    /// Both directions were closed.
    Close,
    /// The application let go of it.
    Release,
}

/// Whether an event can take a stream from one state to another.
pub open spec fn leads_to(before: ControlView, event: StreamEvent, after: ControlView) -> bool {
    match event {
        StreamEvent::Service(socket) => after == before.step(socket).control,
        StreamEvent::Read { waker, buf, filled, res } => {
            &&& buf.len() <= usize::MAX
            &&& read_outcome(before, waker, buf, after, filled, res)
        },
        StreamEvent::Write { waker, buf, res } => {
            &&& buf.len() <= usize::MAX
            &&& write_outcome(before, waker, buf, after, res)
        },
        StreamEvent::Flush { waker, res } => flush_outcome(before, waker, after, res),
        StreamEvent::Shutdown { waker, res } => shutdown_outcome(before, waker, after, res),
        StreamEvent::Close => after == before.shut(),
        StreamEvent::Release => after == before.released(),
    }
}

/// The octets that a write was told to be taken.
pub open spec fn written_by(event: StreamEvent) -> Seq<u8> {
    match event {
        StreamEvent::Write { buf, res: WritePoll::Ready { written, .. }, .. } => buf.take(
            written as int,
        ),
        _ => Seq::empty(),
    }
}

/// The octets that a read gave.
pub open spec fn read_by(event: StreamEvent) -> Seq<u8> {
    match event {
        StreamEvent::Read { filled, res: ReadPoll::Ready { read, .. }, .. } => filled.take(
            read as int,
        ),
        _ => Seq::empty(),
    }
}

/// The octets that the socket got to send.
pub open spec fn handed_over_by(before: ControlView, event: StreamEvent) -> Seq<u8> {
    match event {
        StreamEvent::Service(socket) => before.step(socket).socket.tx.skip(socket.tx.len() as int),
        _ => Seq::empty(),
    }
}

/// The received octets that the socket gave up.
pub open spec fn taken_over_by(before: ControlView, event: StreamEvent) -> Seq<u8> {
    match event {
        StreamEvent::Service(socket) => socket.rx.take(
            socket.rx.len() - before.step(socket).socket.rx.len(),
        ),
        _ => Seq::empty(),
    }
}

/// The life of a stream so far: the states it went through and what happened
/// between them.
#[verifier::ext_equal]
pub struct History {
    pub states: Seq<ControlView>,
    pub events: Seq<StreamEvent>,
}

impl History {
    /// Whether this is the life of a stream from its beginning on.
    pub open spec fn valid(self) -> bool {
        &&& self.states.len() == self.events.len() + 1
        &&& self.states[0] == ControlView::fresh()
        &&& forall|i: int|
            0 <= i < self.events.len() ==> leads_to(
                self.states[i],
                #[trigger] self.events[i],
                self.states[i + 1],
            )
    }

    /// Everything that was written in the first `n` events.
    pub open spec fn written(self, n: int) -> Seq<u8>
        decreases n,
    {
        if n <= 0 {
            Seq::empty()
        } else {
            self.written(n - 1) + written_by(self.events[n - 1])
        }
    }

    /// Everything that was read in the first `n` events.
    pub open spec fn read(self, n: int) -> Seq<u8>
        decreases n,
    {
        if n <= 0 {
            Seq::empty()
        } else {
            self.read(n - 1) + read_by(self.events[n - 1])
        }
    }

    /// Everything that the socket got to send in the first `n` events.
    pub open spec fn handed_over(self, n: int) -> Seq<u8>
        decreases n,
    {
        if n <= 0 {
            Seq::empty()
        } else {
            self.handed_over(n - 1) + handed_over_by(self.states[n - 1], self.events[n - 1])
        }
    }

    /// Everything that the socket gave up in the first `n` events.
    pub open spec fn taken_over(self, n: int) -> Seq<u8>
        decreases n,
    {
        if n <= 0 {
            Seq::empty()
        } else {
            self.taken_over(n - 1) + taken_over_by(self.states[n - 1], self.events[n - 1])
        }
    }
}

/// One event moves octets through the send buffer in order.
proof fn lemma_event_keeps_the_send_order(
    before: ControlView,
    event: StreamEvent,
    after: ControlView,
)
    requires
        leads_to(before, event, after),
        within_capacity(before),
        before.send_capacity <= usize::MAX,
    ensures
        before.send + written_by(event) == handed_over_by(before, event) + after.send,
        within_capacity(after),
        after.send_capacity == before.send_capacity,
        after.recv_capacity == before.recv_capacity,
{
    match event {
        StreamEvent::Service(socket) => {
            law_step_conserves_octets(before, socket);
            let next = before.step(socket);
            let handed = next.socket.tx.skip(socket.tx.len() as int);
            assert(next.socket.tx.take(socket.tx.len() as int) =~= socket.tx);
            assert(next.socket.tx =~= socket.tx + handed);
            let whole = next.socket.tx + next.control.send;
            assert(whole.skip(socket.tx.len() as int) =~= handed + next.control.send);
            assert((socket.tx + before.send).skip(socket.tx.len() as int) =~= before.send);
            assert(before.send + written_by(event) =~= before.send);
        },
        StreamEvent::Write { waker, buf, res } => {
            assert(before.send + written_by(event) =~= handed_over_by(before, event) + after.send);
        },
        _ => {
            assert(before.send + written_by(event) =~= before.send);
            assert(handed_over_by(before, event) + after.send =~= after.send);
        },
    }
}

/// One event moves octets through the receive buffer in order.
proof fn lemma_event_keeps_the_receive_order(
    before: ControlView,
    event: StreamEvent,
    after: ControlView,
)
    requires
        leads_to(before, event, after),
    ensures
        before.recv + taken_over_by(before, event) == read_by(event) + after.recv,
{
    match event {
        StreamEvent::Service(socket) => {
            law_step_conserves_octets(before, socket);
            let next = before.step(socket);
            let n = socket.rx.len() - next.socket.rx.len();
            assert(socket.rx.take(n) + socket.rx.skip(n) =~= socket.rx);
            assert(socket.rx.skip(n) =~= next.socket.rx);
            let whole = next.control.recv + next.socket.rx;
            assert(whole.take(next.control.recv.len() as int) =~= next.control.recv);
            assert((before.recv + socket.rx).take(next.control.recv.len() as int) =~= before.recv
                + socket.rx.take(n));
            assert(read_by(event) + after.recv =~= after.recv);
        },
        StreamEvent::Read { waker, buf, filled, res } => {
            let n = least(buf.len() as int, before.recv.len() as int);
            assert(before.recv.take(n) + before.recv.skip(n) =~= before.recv);
            if res is Ready {
                assert(filled.take(n) =~= before.recv.take(n));
            }
            assert(before.recv + taken_over_by(before, event) =~= read_by(event) + after.recv);
        },
        _ => {
            assert(before.recv + taken_over_by(before, event) =~= before.recv);
            assert(read_by(event) + after.recv =~= after.recv);
        },
    }
}

/// The buffers of a stream never hold more than they can, and never change their
/// size.
pub proof fn law_buffers_stay_within_capacity(history: History, n: int)
    requires
        history.valid(),
        0 <= n <= history.events.len(),
    ensures
        within_capacity(history.states[n]),
        history.states[n].send_capacity == ControlView::fresh().send_capacity,
        history.states[n].recv_capacity == ControlView::fresh().recv_capacity,
    decreases n,
{
    if n > 0 {
        law_buffers_stay_within_capacity(history, n - 1);
        let event = history.events[n - 1];
        lemma_event_keeps_the_send_order(history.states[n - 1], event, history.states[n]);
    }
}

/// Whatever happens to a stream, everything that was written goes to the socket
/// once, unchanged and in order: what the socket got so far, followed by what is
/// buffered, is what was written.
pub proof fn law_everything_written_is_handed_over_in_order(history: History, n: int)
    requires
        history.valid(),
        0 <= n <= history.events.len(),
    ensures
        history.written(n) == history.handed_over(n) + history.states[n].send,
    decreases n,
{
    if n > 0 {
        law_everything_written_is_handed_over_in_order(history, n - 1);
        law_buffers_stay_within_capacity(history, n - 1);
        let before = history.states[n - 1];
        let event = history.events[n - 1];
        let after = history.states[n];
        lemma_event_keeps_the_send_order(before, event, after);
        let handed = history.handed_over(n - 1);
        assert(handed + before.send + written_by(event) =~= handed + (before.send + written_by(
            event,
        )));
        assert(handed + (handed_over_by(before, event) + after.send) =~= handed + handed_over_by(
            before,
            event,
        ) + after.send);
    }
}

/// Whatever happens to a stream, everything that the socket gave up is read once,
/// unchanged and in order: what was read so far, followed by what is buffered, is
/// what the socket gave up.
pub proof fn law_everything_received_is_read_in_order(history: History, n: int)
    requires
        history.valid(),
        0 <= n <= history.events.len(),
    ensures
        history.taken_over(n) == history.read(n) + history.states[n].recv,
    decreases n,
{
    if n > 0 {
        law_everything_received_is_read_in_order(history, n - 1);
        let before = history.states[n - 1];
        let event = history.events[n - 1];
        let after = history.states[n];
        lemma_event_keeps_the_receive_order(before, event, after);
        let given = history.read(n - 1);
        assert(given + before.recv + taken_over_by(before, event) =~= given + (before.recv
            + taken_over_by(before, event)));
        assert(given + (read_by(event) + after.recv) =~= given + read_by(event) + after.recv);
    }
}

/// A flush that is done tells the truth: the socket got everything that was written.
pub proof fn law_flushed_stream_was_handed_over(history: History, n: int)
    requires
        history.valid(),
        0 <= n < history.events.len(),
        history.events[n] matches StreamEvent::Flush { res, .. } && res == FlushPoll::Ready,
    ensures
        history.written(n) == history.handed_over(n),
{
    law_everything_written_is_handed_over_in_order(history, n);
    assert(leads_to(history.states[n], history.events[n], history.states[n + 1]));
    assert(history.handed_over(n) + history.states[n].send =~= history.handed_over(n));
}

/// The end of the stream tells the truth: everything that the socket gave up was
/// read.
pub proof fn law_ended_stream_was_read(history: History, n: int)
    requires
        history.valid(),
        0 <= n < history.events.len(),
        history.events[n] matches StreamEvent::Read { buf, res, .. } && buf.len() > 0 && (
        res matches ReadPoll::Ready { read, .. } && read == 0),
    ensures
        history.taken_over(n) == history.read(n),
{
    law_everything_received_is_read_in_order(history, n);
    assert(leads_to(history.states[n], history.events[n], history.states[n + 1]));
    assert(history.states[n].recv.len() == 0);
    assert(history.read(n) + history.states[n].recv =~= history.read(n));
}

/// A direction that was closed stays closed, whatever happens to the stream.
pub proof fn law_no_direction_reopens(history: History, m: int, n: int)
    requires
        history.valid(),
        0 <= m <= n <= history.events.len(),
    ensures
        no_reopening(history.states[m], history.states[n]),
    decreases n - m,
{
    if m < n {
        law_no_direction_reopens(history, m, n - 1);
        let event = history.events[n - 1];
        assert(leads_to(history.states[n - 1], event, history.states[n]));
    }
}

/// The receive direction of a stream is never half closed.
pub proof fn law_receive_direction_is_open_or_closed(history: History, n: int)
    requires
        history.valid(),
        0 <= n <= history.events.len(),
    ensures
        stage(history.states[n].recv_state) != 1,
    decreases n,
{
    if n > 0 {
        law_receive_direction_is_open_or_closed(history, n - 1);
        let event = history.events[n - 1];
        assert(leads_to(history.states[n - 1], event, history.states[n]));
    }
}

/// Who an event hands out to be woken.
pub open spec fn woken_by(before: ControlView, event: StreamEvent) -> Wakeups {
    match event {
        StreamEvent::Service(socket) => before.step(socket).wakeups,
        StreamEvent::Close | StreamEvent::Release => before.waiting(),
        _ => Wakeups::nobody(),
    }
}

/// No wake-up is lost for a reader that waits: until its waker is handed out, it
/// stays registered and there is nothing to read.
pub proof fn law_waiting_reader_is_woken_in_time(history: History, m: int, n: int)
    requires
        history.valid(),
        0 <= m < n <= history.events.len(),
        history.events[m] matches StreamEvent::Read { res, .. } && res == ReadPoll::Pending,
        forall|k: int|
            m < k < n ==> !((#[trigger] history.events[k]) is Read) && woken_by(
                history.states[k],
                history.events[k],
            ).receiver is None,
    ensures
        registered(history.states[n].recv_waker, history.events[m]->Read_waker),
        read_blocks(history.states[n]),
    decreases n - m,
{
    if n == m + 1 {
        assert(leads_to(history.states[m], history.events[m], history.states[n]));
    } else {
        law_waiting_reader_is_woken_in_time(history, m, n - 1);
        let event = history.events[n - 1];
        assert(leads_to(history.states[n - 1], event, history.states[n]));
    }
}

/// No wake-up is lost for a writer that waits: until its waker is handed out, it
/// stays registered and there is no room to write, as long as nobody else writes,
/// flushes or shuts down.
pub proof fn law_waiting_writer_is_woken_in_time(history: History, m: int, n: int)
    requires
        history.valid(),
        0 <= m < n <= history.events.len(),
        history.events[m] matches StreamEvent::Write { res, .. } && res == WritePoll::Pending,
        forall|k: int|
            m < k < n ==> !((#[trigger] history.events[k]) is Write || history.events[k] is Flush
                || history.events[k] is Shutdown) && woken_by(
                history.states[k],
                history.events[k],
            ).sender is None,
    ensures
        registered(history.states[n].send_waker, history.events[m]->Write_waker),
        write_blocks(history.states[n]),
    decreases n - m,
{
    if n == m + 1 {
        assert(leads_to(history.states[m], history.events[m], history.states[n]));
    } else {
        law_waiting_writer_is_woken_in_time(history, m, n - 1);
        let event = history.events[n - 1];
        let before = history.states[n - 1];
        assert(leads_to(before, event, history.states[n]));
        assert(before.send.skip(0) =~= before.send);
    }
}

/// No wake-up is lost for a flush that waits on a stream that is open for writing:
/// until its waker is handed out, it stays registered and something is left to be
/// passed on, as long as nobody else writes, flushes or shuts down.
pub proof fn law_waiting_flush_is_woken_in_time(history: History, m: int, n: int)
    requires
        history.valid(),
        0 <= m < n <= history.events.len(),
        history.states[m].send_state == SocketState::Active,
        history.events[m] matches StreamEvent::Flush { res, .. } && res == FlushPoll::Pending,
        forall|k: int|
            m < k < n ==> !((#[trigger] history.events[k]) is Write || history.events[k] is Flush
                || history.events[k] is Shutdown) && woken_by(
                history.states[k],
                history.events[k],
            ).sender is None,
    ensures
        registered(history.states[n].send_waker, history.events[m]->Flush_waker),
        history.states[n].send_state == SocketState::Active,
        history.states[n].send.len() > 0,
    decreases n - m,
{
    if n == m + 1 {
        assert(leads_to(history.states[m], history.events[m], history.states[n]));
    } else {
        law_waiting_flush_is_woken_in_time(history, m, n - 1);
        let event = history.events[n - 1];
        let before = history.states[n - 1];
        assert(leads_to(before, event, history.states[n]));
        assert(before.send.skip(0) =~= before.send);
    }
}

/// No wake-up is lost for a shutdown that waits: until its waker is handed out, it
/// stays registered and the transmit direction is not closed yet.
pub proof fn law_waiting_shutdown_is_woken_in_time(history: History, m: int, n: int)
    requires
        history.valid(),
        0 <= m < n <= history.events.len(),
        history.events[m] matches StreamEvent::Shutdown { res, .. } && res is Pending,
        forall|k: int|
            m < k < n ==> !((#[trigger] history.events[k]) is Shutdown) && woken_by(
                history.states[k],
                history.events[k],
            ).shutdown is None,
    ensures
        registered(history.states[n].shutdown_waker, history.events[m]->Shutdown_waker),
        history.states[n].send_state == SocketState::Closing,
    decreases n - m,
{
    if n == m + 1 {
        assert(leads_to(history.states[m], history.events[m], history.states[n]));
    } else {
        law_waiting_shutdown_is_woken_in_time(history, m, n - 1);
        let event = history.events[n - 1];
        assert(leads_to(history.states[n - 1], event, history.states[n]));
    }
}

} // verus!

//! Laws on servicing a connection: moving octets between its socket and its stream.
use crate::control::{ControlView, SocketControl, SocketState};
use crate::socket::{tcp_view, TcpState, TcpView};
use crate::waker::Wakeups;
use smoltcp::socket::tcp::Socket as TcpSocket;
use std::task::Waker;
use vstd::prelude::*;

verus! {

/// Whether a socket takes octets to send.
pub open spec fn sends(socket: TcpView) -> bool {
    socket.state == TcpState::Established || socket.state == TcpState::CloseWait
}

/// Whether a socket will receive no more octets: its peer closed, or it is done.
pub open spec fn receives_no_more(socket: TcpView) -> bool {
    ||| socket.state == TcpState::Closed
    ||| socket.state == TcpState::CloseWait
    ||| socket.state == TcpState::Closing
    ||| socket.state == TcpState::LastAck
    ||| socket.state == TcpState::TimeWait
}

/// Whether two states of a socket have the same settings.
pub open spec fn same_settings(a: TcpView, b: TcpView) -> bool {
    &&& a.rx_capacity == b.rx_capacity
    &&& a.tx_capacity == b.tx_capacity
    &&& a.keep_alive == b.keep_alive
    &&& a.timeout == b.timeout
    &&& a.nagle == b.nagle
    &&& a.listen_endpoint == b.listen_endpoint
}

/// Whether the buffers of a stream are as large as they were.
pub open spec fn same_capacities(a: ControlView, b: ControlView) -> bool {
    a.send_capacity == b.send_capacity && a.recv_capacity == b.recv_capacity
}

/// Whether the receive side of a stream is as it was.
pub open spec fn same_receive_side(a: ControlView, b: ControlView) -> bool {
    a.recv == b.recv && a.recv_state == b.recv_state && a.recv_waker == b.recv_waker
}

/// Whether the send side of a stream is as it was.
pub open spec fn same_send_side(a: ControlView, b: ControlView) -> bool {
    &&& a.send == b.send
    &&& a.send_state == b.send_state
    &&& a.send_waker == b.send_waker
    &&& a.shutdown_waker == b.shutdown_waker
}

/// Whether a waker was handed out of its slot where there was reason to, and left in
/// it otherwise.
pub open spec fn handed_out(
    reason: bool,
    before: Option<Waker>,
    after: Option<Waker>,
    waker: Option<Waker>,
) -> bool {
    if reason {
        waker == before && after is None
    } else {
        waker is None && after == before
    }
}

/// A socket is read out, whatever the send side of the stream is up to: afterwards
/// it has nothing left or the receive buffer is full, and nothing was lost, repeated
/// or reordered. The direction closes exactly where everything was read and the
/// socket will receive no more. The reader is woken exactly where it has something
/// new to look at. Nothing else changes.
pub proof fn law_socket_is_read_out(
    control: &mut SocketControl,
    socket: &mut TcpSocket<'static>,
    waker: Option<Waker>,
)
    requires
        call_ensures(SocketControl::handle_socket_read, (control, socket), waker),
    ensures
        ({
            let before = old(control)@;
            let after = final(control)@;
            let given = tcp_view(*old(socket));
            let left = tcp_view(*final(socket));
            let moved = after.recv.len() > before.recv.len();
            let ends = before.recv_state == SocketState::Active && after.recv.len() == 0
                && left.rx.len() == 0 && receives_no_more(given);
            &&& left.rx.len() == 0 || after.recv.len() >= after.recv_capacity
            &&& after.recv + left.rx == before.recv + given.rx
            &&& after.recv.len() >= before.recv.len()
            &&& moved ==> after.recv.len() <= after.recv_capacity
            &&& after.recv_state == (if ends {
                SocketState::Closed
            } else {
                before.recv_state
            })
            &&& handed_out(moved || ends, before.recv_waker, after.recv_waker, waker)
            &&& same_send_side(before, after)
            &&& same_capacities(before, after)
            &&& left.state == given.state
            &&& left.tx == given.tx
            &&& same_settings(given, left)
        }),
{
    let before = old(control)@;
    let given = tcp_view(*old(socket));
    let n = before.intake(given);
    assert(before.recv + given.rx.take(n) + given.rx.skip(n) =~= before.recv + given.rx);
}

/// What was written goes to a socket that sends, as far as that has room: afterwards
/// nothing is left or its buffer is full, and nothing was lost, repeated or
/// reordered. Another socket gets nothing. The writer is woken exactly where
/// something went, and who waits for the shutdown exactly where that was asked for
/// and nothing is left. Nothing else changes.
pub proof fn law_writer_is_emptied(
    control: &mut SocketControl,
    socket: &mut TcpSocket<'static>,
    wakeups: Wakeups,
)
    requires
        call_ensures(SocketControl::handle_socket_write, (control, socket), wakeups),
    ensures
        ({
            let before = old(control)@;
            let after = final(control)@;
            let given = tcp_view(*old(socket));
            let left = tcp_view(*final(socket));
            let moved = after.send.len() < before.send.len();
            &&& sends(given) ==> after.send.len() == 0 || left.tx.len() >= left.tx_capacity
            &&& !sends(given) ==> after.send == before.send && left.tx == given.tx
            &&& left.tx + after.send == given.tx + before.send
            &&& left.tx.len() >= given.tx.len()
            &&& moved ==> left.tx.len() <= left.tx_capacity
            &&& handed_out(moved, before.send_waker, after.send_waker, wakeups.sender)
            &&& handed_out(
                before.send_state == SocketState::Closing && after.send.len() == 0,
                before.shutdown_waker,
                after.shutdown_waker,
                wakeups.shutdown,
            )
            &&& wakeups.receiver is None
            &&& after.send_state == before.send_state
            &&& same_receive_side(before, after)
            &&& same_capacities(before, after)
            &&& left.state == given.state
            &&& left.rx == given.rx
            &&& same_settings(given, left)
        }),
{
    let before = old(control)@;
    let given = tcp_view(*old(socket));
    let n = before.outflow(given);
    assert(given.tx + before.send.take(n) + before.send.skip(n) =~= given.tx + before.send);
    assert(before.send.skip(0) =~= before.send);
    assert(given.tx + before.send.take(0) =~= given.tx);
}

/// Whether a stream wants the sending half of its socket closed: everything was sent
/// and a shutdown was asked for, both directions are closed, or the application is
/// still sending to a peer that closed.
pub open spec fn wants_sending_closed(control: ControlView, socket: TcpView) -> bool {
    ||| control.send_state == SocketState::Closing && control.send.len() == 0
    ||| control.send_state == SocketState::Closed && control.recv_state == SocketState::Closed
    ||| control.send_state == SocketState::Active && socket.state == TcpState::CloseWait
}

/// The sending half of a socket is closed exactly where the stream wants that and it
/// is open. Nothing else changes.
pub proof fn law_sending_half_is_closed(control: SocketControl, socket: &mut TcpSocket<'static>)
    requires
        call_ensures(SocketControl::handle_application_close, (&control, socket), ()),
    ensures
        ({
            let given = tcp_view(*old(socket));
            let left = tcp_view(*final(socket));
            let wanted = wants_sending_closed(control@, given);
            &&& wanted && given.state == TcpState::Established ==> left.state == TcpState::FinWait1
            &&& wanted && given.state == TcpState::CloseWait ==> left.state == TcpState::LastAck
            &&& !wanted || !sends(given) ==> left.state == given.state
            &&& left.rx == given.rx
            &&& left.tx == given.tx
            &&& same_settings(given, left)
        }),
{
}

/// A stream is given up exactly where both its directions are closed and its socket
/// sends no more.
pub proof fn law_stream_is_given_up(
    control: SocketControl,
    socket: TcpSocket<'static>,
    cleanup: bool,
)
    requires
        call_ensures(SocketControl::should_force_cleanup, (&control, &socket), cleanup),
    ensures
        cleanup <==> control@.send_state == SocketState::Closed && control@.recv_state
            == SocketState::Closed && !sends(tcp_view(socket)),
{
}

/// A shutdown ends exactly where it was asked for and the socket sends no more. Who
/// waits for it is then woken. Nothing else changes.
pub proof fn law_shutdown_ends(
    control: &mut SocketControl,
    socket: TcpSocket<'static>,
    waker: Option<Waker>,
)
    requires
        call_ensures(SocketControl::sync_control_state, (control, &socket), waker),
    ensures
        ({
            let before = old(control)@;
            let after = final(control)@;
            let ends = before.send_state == SocketState::Closing && !sends(tcp_view(socket));
            &&& after.send_state == (if ends {
                SocketState::Closed
            } else {
                before.send_state
            })
            &&& handed_out(ends, before.shutdown_waker, after.shutdown_waker, waker)
            &&& after.send == before.send
            &&& after.send_waker == before.send_waker
            &&& same_receive_side(before, after)
            &&& same_capacities(before, after)
        }),
{
}

/// Whether a stream is done before it is serviced: its socket is closed, or both its
/// directions are.
pub open spec fn is_done(control: ControlView, socket: TcpView) -> bool {
    ||| socket.state == TcpState::Closed
    ||| control.send_state == SocketState::Closed && control.recv_state == SocketState::Closed
}

/// Servicing a stream that is done closes it for good: both directions and the
/// socket are closed and everybody who waits is woken. What is buffered stays.
pub proof fn law_done_stream_is_closed(
    control: &mut SocketControl,
    socket: &mut TcpSocket<'static>,
    res: (Wakeups, bool),
)
    requires
        call_ensures(SocketControl::process_socket, (control, socket), res),
    ensures
        res.1 <==> is_done(old(control)@, tcp_view(*old(socket))),
        res.1 ==> {
            let before = old(control)@;
            let after = final(control)@;
            let given = tcp_view(*old(socket));
            let left = tcp_view(*final(socket));
            &&& after.send_state == SocketState::Closed
            &&& after.recv_state == SocketState::Closed
            &&& left.state == TcpState::Closed
            &&& after.send == before.send
            &&& after.recv == before.recv
            &&& same_capacities(before, after)
            &&& handed_out(true, before.send_waker, after.send_waker, res.0.sender)
            &&& handed_out(true, before.recv_waker, after.recv_waker, res.0.receiver)
            &&& handed_out(true, before.shutdown_waker, after.shutdown_waker, res.0.shutdown)
            &&& left.rx == given.rx
            &&& left.tx == given.tx
            &&& same_settings(given, left)
        },
{
}

/// Servicing a stream that is not done moves everything that can be moved, in every
/// state of its directions: afterwards the socket has nothing left to read or the
/// receive buffer is full, and, where the socket still sends, nothing is left to be
/// sent or the buffer of the socket is full. Nothing is lost, repeated or reordered,
/// and a socket that does not send any more gets nothing.
pub proof fn law_serviced_stream_makes_progress(
    control: &mut SocketControl,
    socket: &mut TcpSocket<'static>,
    res: (Wakeups, bool),
)
    requires
        call_ensures(SocketControl::process_socket, (control, socket), res),
        !is_done(old(control)@, tcp_view(*old(socket))),
    ensures
        ({
            let before = old(control)@;
            let after = final(control)@;
            let given = tcp_view(*old(socket));
            let left = tcp_view(*final(socket));
            &&& left.rx.len() == 0 || after.recv.len() >= after.recv_capacity
            &&& after.recv + left.rx == before.recv + given.rx
            &&& after.recv.len() >= before.recv.len()
            &&& after.recv.len() > before.recv.len() ==> after.recv.len() <= after.recv_capacity
            &&& sends(left) ==> after.send.len() == 0 || left.tx.len() >= left.tx_capacity
            &&& !sends(left) ==> after.send == before.send && left.tx == given.tx
            &&& left.tx + after.send == given.tx + before.send
            &&& left.tx.len() >= given.tx.len()
            &&& left.tx.len() > given.tx.len() ==> left.tx.len() <= left.tx_capacity
            &&& same_capacities(before, after)
            &&& same_settings(given, left)
        }),
{
    let before = old(control)@;
    let given = tcp_view(*old(socket));
    let closed = before.after_close(given);
    let n = before.intake(closed);
    assert(before.recv + given.rx.take(n) + given.rx.skip(n) =~= before.recv + given.rx);
    let read = before.after_read(closed);
    let m = read.control.outflow(read.socket);
    assert(given.tx + before.send.take(m) + before.send.skip(m) =~= given.tx + before.send);
    assert(before.send.skip(0) =~= before.send);
    assert(given.tx + before.send.take(0) =~= given.tx);
}

/// Servicing a stream that is not done takes its states one step on. The sending half
/// of the socket is closed where the stream wants that; a shutdown that was asked
/// for ends where the socket sends no more; the receive direction closes where
/// everything was read and the socket will receive no more. Nothing else changes a
/// state.
pub proof fn law_serviced_stream_changes_state(
    control: &mut SocketControl,
    socket: &mut TcpSocket<'static>,
    res: (Wakeups, bool),
)
    requires
        call_ensures(SocketControl::process_socket, (control, socket), res),
        !is_done(old(control)@, tcp_view(*old(socket))),
    ensures
        ({
            let before = old(control)@;
            let after = final(control)@;
            let given = tcp_view(*old(socket));
            let left = tcp_view(*final(socket));
            let wanted = wants_sending_closed(before, given);
            let ends = before.recv_state == SocketState::Active && after.recv.len() == 0
                && left.rx.len() == 0 && receives_no_more(left);
            &&& wanted && given.state == TcpState::Established ==> left.state == TcpState::FinWait1
            &&& wanted && given.state == TcpState::CloseWait ==> left.state == TcpState::LastAck
            &&& !wanted || !sends(given) ==> left.state == given.state
            &&& after.send_state == (if before.send_state == SocketState::Closing && !sends(left) {
                SocketState::Closed
            } else {
                before.send_state
            })
            &&& after.recv_state == (if ends {
                SocketState::Closed
            } else {
                before.recv_state
            })
        }),
{
}

/// Servicing a stream that is not done wakes exactly who has reason to look: the
/// reader where octets came or the end did, the writer where octets went, and who
/// waits for the shutdown where that was asked for and nothing is left to be sent or
/// the socket sends no more. Everybody else stays registered.
pub proof fn law_serviced_stream_wakes(
    control: &mut SocketControl,
    socket: &mut TcpSocket<'static>,
    res: (Wakeups, bool),
)
    requires
        call_ensures(SocketControl::process_socket, (control, socket), res),
        !is_done(old(control)@, tcp_view(*old(socket))),
    ensures
        ({
            let before = old(control)@;
            let after = final(control)@;
            let left = tcp_view(*final(socket));
            &&& handed_out(
                after.recv.len() > before.recv.len() || after.recv_state != before.recv_state,
                before.recv_waker,
                after.recv_waker,
                res.0.receiver,
            )
            &&& handed_out(
                after.send.len() < before.send.len(),
                before.send_waker,
                after.send_waker,
                res.0.sender,
            )
            &&& handed_out(
                before.send_state == SocketState::Closing && (after.send.len() == 0 || !sends(
                    left,
                )),
                before.shutdown_waker,
                after.shutdown_waker,
                res.0.shutdown,
            )
        }),
{
}

/// A new stream is empty and open, and nobody waits.
pub proof fn law_new_stream_is_open(control: SocketControl)
    requires
        call_ensures(SocketControl::new, (), control),
    ensures
        control@.send.len() == 0,
        control@.recv.len() == 0,
        control@.send_capacity == 16383,
        control@.recv_capacity == 16383,
        control@.send_state == SocketState::Active,
        control@.recv_state == SocketState::Active,
        control@.send_waker is None,
        control@.recv_waker is None,
        control@.shutdown_waker is None,
{
}

/// Closing a stream closes both directions, wakes everybody who waits, and keeps
/// what is buffered.
pub proof fn law_closing_closes_and_wakes(control: &mut SocketControl, wakeups: Wakeups)
    requires
        call_ensures(SocketControl::close, (control,), wakeups),
    ensures
        ({
            let before = old(control)@;
            let after = final(control)@;
            &&& after.send_state == SocketState::Closed
            &&& after.recv_state == SocketState::Closed
            &&& after.send == before.send
            &&& after.recv == before.recv
            &&& same_capacities(before, after)
            &&& handed_out(true, before.send_waker, after.send_waker, wakeups.sender)
            &&& handed_out(true, before.recv_waker, after.recv_waker, wakeups.receiver)
            &&& handed_out(true, before.shutdown_waker, after.shutdown_waker, wakeups.shutdown)
        }),
{
}

/// Whether a stream was let go of: an open receive direction closes, an open send
/// direction closes at once where nothing is left to be sent and is still to close
/// otherwise, nobody waits any more, and what is buffered stays.
pub open spec fn let_go(before: ControlView, after: ControlView, wakeups: Wakeups) -> bool {
    &&& before.recv_state == SocketState::Active ==> after.recv_state == SocketState::Closed
    &&& before.recv_state != SocketState::Active ==> after.recv_state == before.recv_state
    &&& before.send_state == SocketState::Active && before.send.len() == 0 ==> after.send_state
        == SocketState::Closed
    &&& before.send_state == SocketState::Active && before.send.len() > 0 ==> after.send_state
        == SocketState::Closing
    &&& before.send_state != SocketState::Active ==> after.send_state == before.send_state
    &&& after.send == before.send
    &&& after.recv == before.recv
    &&& same_capacities(before, after)
    &&& handed_out(true, before.send_waker, after.send_waker, wakeups.sender)
    &&& handed_out(true, before.recv_waker, after.recv_waker, wakeups.receiver)
    &&& handed_out(true, before.shutdown_waker, after.shutdown_waker, wakeups.shutdown)
}

/// Letting go of a stream sends on what was written and wakes everybody who waits.
pub proof fn law_releasing_lets_go(control: &mut SocketControl, wakeups: Wakeups)
    requires
        call_ensures(SocketControl::release, (control,), wakeups),
    ensures
        let_go(old(control)@, final(control)@, wakeups),
{
}

/// Each slot gives out its own waker and leaves the others in place.
pub proof fn law_slots_are_kept_apart(
    sender: &mut SocketControl,
    send_waker: Option<Waker>,
    receiver: &mut SocketControl,
    recv_waker: Option<Waker>,
    closer: &mut SocketControl,
    shutdown_waker: Option<Waker>,
)
    requires
        call_ensures(SocketControl::wake_sender, (sender,), send_waker),
        call_ensures(SocketControl::wake_receiver, (receiver,), recv_waker),
        call_ensures(SocketControl::wake_shutdown, (closer,), shutdown_waker),
    ensures
        handed_out(true, old(sender)@.send_waker, final(sender)@.send_waker, send_waker),
        same_receive_side(old(sender)@, final(sender)@),
        old(sender)@.shutdown_waker == final(sender)@.shutdown_waker,
        old(sender)@.send == final(sender)@.send,
        old(sender)@.send_state == final(sender)@.send_state,
        handed_out(true, old(receiver)@.recv_waker, final(receiver)@.recv_waker, recv_waker),
        same_send_side(old(receiver)@, final(receiver)@),
        old(receiver)@.recv == final(receiver)@.recv,
        old(receiver)@.recv_state == final(receiver)@.recv_state,
        handed_out(
            true,
            old(closer)@.shutdown_waker,
            final(closer)@.shutdown_waker,
            shutdown_waker,
        ),
        same_receive_side(old(closer)@, final(closer)@),
        old(closer)@.send_waker == final(closer)@.send_waker,
        old(closer)@.send == final(closer)@.send,
        old(closer)@.send_state == final(closer)@.send_state,
        same_capacities(old(sender)@, final(sender)@),
        same_capacities(old(receiver)@, final(receiver)@),
        same_capacities(old(closer)@, final(closer)@),
{
}

/// What a stream tells of itself is so.
pub proof fn law_stream_tells_its_state(control: SocketControl, ready: bool, dropped: bool)
    requires
        call_ensures(SocketControl::ready_to_initiate_close, (&control,), ready),
        call_ensures(SocketControl::is_stream_dropped, (&control,), dropped),
    ensures
        ready <==> control.send_state == SocketState::Closing && control@.send.len() == 0,
        dropped <==> control.send_state == SocketState::Closed && control.recv_state
            == SocketState::Closed,
{
}

} // verus!

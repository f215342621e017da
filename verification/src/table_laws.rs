//! What holds between a stream and the socket of its connection.
use crate::control::{read_outcome, write_outcome, ControlView, ReadPoll, WritePoll};
use crate::listener::{listening, opened, TcpHeader};
use crate::shared::turn;
use crate::socket::tcp_view;
use crate::stream::TcpStream;
use crate::stream_laws::{
    law_reads_give_what_was_received_in_order, law_writes_reach_the_socket_in_order,
    within_capacity,
};
use crate::table::{
    inserted, serviced, set_sockets, step_at, Connection, NewConnection, SocketTable,
};
use crate::waker::Wakeups;
use smoltcp::iface::SocketHandle;
use smoltcp::socket::tcp::Socket as TcpSocket;
use std::task::Waker;
use vstd::prelude::*;

verus! {

/// The stream that a segment opened and the connection that the table then lists
/// last have one lock between them, and the socket of that connection listens where
/// the segment goes.
pub proof fn law_opened_stream_has_its_own_connection(
    header: TcpHeader,
    stream: TcpStream,
    connection: NewConnection,
    before: SocketTable,
    after: SocketTable,
)
    requires
        opened(header, stream, connection),
        inserted(before, connection, after),
    ensures
        after.connections@.last().control == stream.control,
        tcp_view(set_sockets(after.set)[after.connections@.last().handle]) == listening(header.dst),
        !set_sockets(before.set).dom().contains(after.connections@.last().handle),
{
}

/// What an application writes on its stream goes to the socket of that same
/// connection: where servicing the connections finds the control as the write left
/// it, what the socket then has to send, followed by what is still buffered, is what
/// both had before the write, followed by what was written. All of it happens to the
/// control behind the lock of the stream.
pub proof fn law_writes_go_to_the_socket_of_the_stream(
    stream: TcpStream,
    before: ControlView,
    waker: Waker,
    buf: Seq<u8>,
    written: usize,
    notify: bool,
    connections: Seq<Connection>,
    i: int,
    sockets: Map<SocketHandle, TcpSocket<'static>>,
    controls: Seq<ControlView>,
    after: Map<SocketHandle, TcpSocket<'static>>,
    wakeups: Seq<Wakeups>,
    closed: Seq<SocketHandle>,
)
    requires
        0 <= i < connections.len(),
        connections[i].control == stream.control,
        turn(*stream.control, before, controls[i]),
        write_outcome(before, waker, buf, controls[i], WritePoll::Ready { written, notify }),
        within_capacity(before),
        before.send_capacity <= usize::MAX,
        serviced(connections, sockets, controls, after, wakeups, closed),
    ensures
        ({
            let handle = connections[i].handle;
            let left = step_at(connections, sockets, controls, i).control;
            &&& turn(*stream.control, controls[i], left)
            &&& tcp_view(after[handle]).tx + left.send == tcp_view(sockets[handle]).tx
                + before.send + buf.take(written as int)
        }),
{
    let socket = tcp_view(sockets[connections[i].handle]);
    law_writes_reach_the_socket_in_order(
        before,
        waker,
        buf,
        controls[i],
        written,
        notify,
        socket,
    );
    assert(turn(
        *connections[i].control,
        controls[i],
        step_at(connections, sockets, controls, i).control,
    ));
}

/// What an application reads on its stream comes from the socket of that same
/// connection: where it finds the control as servicing left it, what it is given,
/// followed by what is still buffered and what the socket still has, is what the
/// stream and the socket had before.
pub proof fn law_reads_come_from_the_socket_of_the_stream(
    stream: TcpStream,
    connections: Seq<Connection>,
    i: int,
    sockets: Map<SocketHandle, TcpSocket<'static>>,
    controls: Seq<ControlView>,
    after: Map<SocketHandle, TcpSocket<'static>>,
    wakeups: Seq<Wakeups>,
    closed: Seq<SocketHandle>,
    waker: Waker,
    buf: Seq<u8>,
    read: usize,
    notify: bool,
    filled: Seq<u8>,
    left: ControlView,
)
    requires
        0 <= i < connections.len(),
        connections[i].control == stream.control,
        serviced(connections, sockets, controls, after, wakeups, closed),
        turn(*stream.control, step_at(connections, sockets, controls, i).control, left),
        read_outcome(
            step_at(connections, sockets, controls, i).control,
            waker,
            buf,
            left,
            filled,
            ReadPoll::Ready { read, notify },
        ),
        buf.len() <= usize::MAX,
    ensures
        ({
            let handle = connections[i].handle;
            &&& turn(
                *stream.control,
                controls[i],
                step_at(connections, sockets, controls, i).control,
            )
            &&& filled.take(read as int) + left.recv + tcp_view(after[handle]).rx
                == controls[i].recv + tcp_view(sockets[handle]).rx
        }),
{
    let socket = tcp_view(sockets[connections[i].handle]);
    law_reads_give_what_was_received_in_order(
        controls[i],
        socket,
        waker,
        buf,
        left,
        filled,
        read,
        notify,
    );
    assert(turn(
        *connections[i].control,
        controls[i],
        step_at(connections, sockets, controls, i).control,
    ));
}

} // verus!

//! Laws on the open connections.
use crate::control::{ControlView, SocketControl};
use crate::laws::servicing::is_done;
use crate::shared::{
    found_by, guarded, lock_of, made_around, share_control, spent, turn, SharedControl,
};
use crate::socket::{tcp_view, TcpState, TcpView};
use crate::table::{
    listed, lists_the_done, serviced, set_sockets, Connection, NewConnection, SocketTable,
};
use crate::waker::Wakeups;
use smoltcp::iface::SocketHandle;
use smoltcp::socket::tcp::Socket as TcpSocket;
use spin::mutex::Mutex;
use spin::MutexGuard;
use vstd::prelude::*;

verus! {

/// A turn is one access to what is behind one lock, from what was found there to what
/// was there when the access was over.
pub proof fn law_turn_is_one_access(
    lock: Mutex<SocketControl, spin::relax::Spin>,
    before: ControlView,
    after: ControlView,
)
    ensures
        turn(lock, before, after) <==> exists|guard: MutexGuard<'_, SocketControl>|
            {
                &&& #[trigger] lock_of(guard) == lock
                &&& spent(guard)
                &&& found_by(guard)@ == before
                &&& guarded(guard)@ == after
            },
{
}

/// The state of the socket of the connection at `i`.
pub open spec fn socket_at(table: SocketTable, i: int) -> TcpView {
    tcp_view(set_sockets(table.set)[table.connections@[i].handle])
}

/// Whether the connection at `i` is serviced: somebody took the lock of this very
/// connection, found `found` behind it, and made the step of that and of the socket
/// of this very connection, which is then in the state `left`.
pub open spec fn is_serviced(
    table: SocketTable,
    i: int,
    found: ControlView,
    left: TcpView,
    wakeups: Wakeups,
) -> bool {
    let step = found.step(socket_at(table, i));
    &&& turn(*table.connections@[i].control, found, step.control)
    &&& left == step.socket
    &&& wakeups == step.wakeups
}

/// Every connection is serviced, each with its own control and its own socket. The
/// handles that are given back are those of the connections that were done, each
/// once. Nothing is taken out, and no other socket is touched.
pub proof fn law_every_connection_is_serviced(
    table: &mut SocketTable,
    res: (Vec<SocketHandle>, Vec<Wakeups>),
)
    requires
        call_ensures(SocketTable::process_sockets, (table,), res),
        old(table).wf(),
    ensures
        ({
            let connections = old(table).connections@;
            let sockets = set_sockets(old(table).set);
            let after = set_sockets(final(table).set);
            &&& final(table).connections@ == connections
            &&& after.dom() == sockets.dom()
            &&& res.1@.len() == connections.len()
            &&& res.0@.no_duplicates()
            &&& exists|controls: Seq<ControlView>|
                {
                    &&& #[trigger] controls.len() == connections.len()
                    &&& forall|i: int|
                        0 <= i < connections.len() ==> is_serviced(
                            *old(table),
                            i,
                            #[trigger] controls[i],
                            tcp_view(after[connections[i].handle]),
                            res.1@[i],
                        ) && (res.0@.contains(connections[i].handle) <==> is_done(
                            controls[i],
                            socket_at(*old(table), i),
                        ))
                }
            &&& forall|handle: SocketHandle| #[trigger]
                res.0@.contains(handle) ==> exists|i: int|
                    0 <= i < connections.len() && (#[trigger] connections[i]).handle == handle
        }),
{
    let connections = old(table).connections@;
    let sockets = set_sockets(old(table).set);
    let after = set_sockets(final(table).set);
    let controls = choose|controls: Seq<ControlView>|
        #[trigger] serviced(connections, sockets, controls, after, res.1@, res.0@)
            && lists_the_done(connections, sockets, controls, res.0@);
    lemma_serviced(*old(table), controls, after, res.1@, res.0@);
    assert(controls.len() == connections.len());
}

/// What is stated of a round of servicing, connection by connection.
proof fn lemma_serviced(
    table: SocketTable,
    controls: Seq<ControlView>,
    after: Map<SocketHandle, TcpSocket<'static>>,
    wakeups: Seq<Wakeups>,
    closed: Seq<SocketHandle>,
)
    requires
        table.wf(),
        serviced(table.connections@, set_sockets(table.set), controls, after, wakeups, closed),
        lists_the_done(table.connections@, set_sockets(table.set), controls, closed),
    ensures
        forall|i: int|
            0 <= i < table.connections@.len() ==> is_serviced(
                table,
                i,
                #[trigger] controls[i],
                tcp_view(after[table.connections@[i].handle]),
                wakeups[i],
            ) && (closed.contains(table.connections@[i].handle) <==> is_done(
                controls[i],
                socket_at(table, i),
            )),
{
    let connections = table.connections@;
    let sockets = set_sockets(table.set);
    assert forall|i: int| 0 <= i < connections.len() implies is_serviced(
        table,
        i,
        #[trigger] controls[i],
        tcp_view(after[connections[i].handle]),
        wakeups[i],
    ) && (closed.contains(connections[i].handle) <==> is_done(
        controls[i],
        socket_at(table, i),
    )) by {
        assert(tcp_view(after[connections[i].handle]) == controls[i].step(
            tcp_view(sockets[connections[i].handle]),
        ).socket);
        assert(wakeups[i] == controls[i].step(tcp_view(sockets[connections[i].handle])).wakeups);
        let handle = connections[i].handle;
        if closed.contains(handle) {
            let j = choose|j: int|
                {
                    &&& 0 <= j < connections.len()
                    &&& (#[trigger] connections[j]).handle == handle
                    &&& tcp_view(sockets[handle]).state == TcpState::Closed
                        || controls[j].dropped()
                };
            assert(i == j);
        }
    }
}

/// After a round of servicing the connections that were done are gone, with their
/// sockets, and exactly those; every other is still there, with its own control, and
/// its socket took its step.
pub proof fn law_done_connections_are_taken_out(table: &mut SocketTable, wakeups: Vec<Wakeups>)
    requires
        call_ensures(SocketTable::service, (table,), wakeups),
        old(table).wf(),
    ensures
        ({
            let connections = old(table).connections@;
            let left = set_sockets(final(table).set);
            &&& final(table).wf()
            &&& wakeups@.len() == connections.len()
            &&& exists|controls: Seq<ControlView>|
                {
                    &&& #[trigger] controls.len() == connections.len()
                    &&& forall|i: int|
                        0 <= i < connections.len() ==> {
                            let done = is_done(#[trigger] controls[i], socket_at(*old(table), i));
                            &&& left.dom().contains(connections[i].handle) <==> !done
                            &&& final(table).connections@.contains(connections[i]) <==> !done
                            &&& !done ==> is_serviced(
                                *old(table),
                                i,
                                controls[i],
                                tcp_view(left[connections[i].handle]),
                                wakeups@[i],
                            )
                        }
                }
        }),
{
    let connections = old(table).connections@;
    let sockets = set_sockets(old(table).set);
    let left = set_sockets(final(table).set);
    let (controls, after, closed) = choose|
        controls: Seq<ControlView>,
        after: Map<SocketHandle, TcpSocket<'static>>,
        closed: Seq<SocketHandle>,
    |
        {
            &&& #[trigger] serviced(connections, sockets, controls, after, wakeups@, closed)
            &&& lists_the_done(connections, sockets, controls, closed)
            &&& final(table).connections@ == connections.filter(
                |connection: Connection| !closed.contains(connection.handle),
            )
            &&& left == after.remove_keys(closed.to_set())
        };
    lemma_serviced(*old(table), controls, after, wakeups@, closed);
    let stays = |connection: Connection| !closed.contains(connection.handle);
    assert forall|i: int| 0 <= i < connections.len() implies {
        let done = is_done(#[trigger] controls[i], socket_at(*old(table), i));
        &&& left.dom().contains(connections[i].handle) <==> !done
        &&& final(table).connections@.contains(connections[i]) <==> !done
        &&& !done ==> is_serviced(
            *old(table),
            i,
            controls[i],
            tcp_view(left[connections[i].handle]),
            wakeups@[i],
        )
    } by {
        let handle = connections[i].handle;
        assert(listed(connections, handle));
        assert(sockets.dom().contains(handle));
        lemma_filtered(connections, stays, connections[i]);
        assert(connections.contains(connections[i]));
    }
    assert(controls.len() == connections.len());
}

/// What a filter keeps is what was there and passes it.
proof fn lemma_filtered(
    connections: Seq<Connection>,
    stays: spec_fn(Connection) -> bool,
    connection: Connection,
)
    ensures
        connections.filter(stays).contains(connection) <==> connections.contains(connection)
            && stays(connection),
    decreases connections.len(),
{
    reveal(Seq::filter);
    if connections.len() > 0 {
        let front = connections.drop_last();
        let last = connections.last();
        lemma_filtered(front, stays, connection);
        let kept = front.filter(stays);
        let all = connections.filter(stays);
        if kept.contains(connection) {
            let k = choose|k: int| 0 <= k < kept.len() && kept[k] == connection;
            assert(all[k] == connection);
        }
        if front.contains(connection) {
            let k = choose|k: int| 0 <= k < front.len() && front[k] == connection;
            assert(connections[k] == connection);
        }
        if connection == last {
            assert(connections[connections.len() - 1] == connection);
            if stays(last) {
                assert(all[all.len() - 1] == connection);
            }
        }
        if connections.contains(connection) && connection != last {
            let k = choose|k: int| 0 <= k < connections.len() && connections[k] == connection;
            assert(front[k] == connection);
        }
        if all.contains(connection) {
            let k = choose|k: int| 0 <= k < all.len() && all[k] == connection;
            if k < kept.len() {
                assert(kept[k] == connection);
            } else {
                assert(connection == last);
            }
        }
    }
}

/// A connection that is taken in comes last, with its own control and its own socket
/// under a handle that no other has; the others stay as they are.
pub proof fn law_connection_is_taken_in(table: &mut SocketTable, connection: NewConnection)
    requires
        call_ensures(SocketTable::insert, (table, connection), ()),
        old(table).wf(),
    ensures
        ({
            let before = old(table).connections@;
            let after = final(table).connections@;
            let n = before.len() as int;
            &&& final(table).wf()
            &&& after.len() == n + 1
            &&& forall|i: int| 0 <= i < n ==> #[trigger] after[i] == before[i]
            &&& forall|i: int|
                0 <= i < n ==> set_sockets(final(table).set)[(#[trigger] after[i]).handle]
                    == set_sockets(old(table).set)[before[i].handle]
            &&& after[n].control == connection.control
            &&& set_sockets(final(table).set)[after[n].handle] == connection.socket
            &&& forall|i: int| 0 <= i < n ==> (#[trigger] after[i]).handle != after[n].handle
        }),
{
    let before = old(table).connections@;
    let after = final(table).connections@;
    assert forall|i: int| 0 <= i < before.len() implies #[trigger] after[i] == before[i] by {
        assert(after.drop_last()[i] == after[i]);
    }
}

/// Taking out handles takes out exactly the connections that have them, with their
/// sockets; the others stay as they are.
pub proof fn law_named_connections_are_taken_out(
    table: &mut SocketTable,
    closed: Vec<SocketHandle>,
    connection: Connection,
)
    requires
        call_ensures(SocketTable::remove_closed, (table, &closed), ()),
        old(table).wf(),
    ensures
        final(table).wf(),
        final(table).connections@.contains(connection) <==> old(table).connections@.contains(
            connection,
        ) && !closed@.contains(connection.handle),
        old(table).connections@.contains(connection) && !closed@.contains(connection.handle)
            ==> set_sockets(final(table).set).dom().contains(connection.handle) && set_sockets(
            final(table).set,
        )[connection.handle] == set_sockets(old(table).set)[connection.handle],
        closed@.contains(connection.handle) ==> !set_sockets(final(table).set).dom().contains(
            connection.handle,
        ),
{
    let connections = old(table).connections@;
    lemma_filtered(
        connections,
        |connection: Connection| !closed@.contains(connection.handle),
        connection,
    );
    if connections.contains(connection) {
        let i = choose|i: int| 0 <= i < connections.len() && connections[i] == connection;
        assert(listed(connections, connections[i].handle));
    }
}

/// A table begins without connections and without sockets, and a shared control is
/// the one that was shared.
pub proof fn law_beginnings(table: SocketTable, control: SocketControl, shared: SharedControl)
    requires
        call_ensures(SocketTable::new, (), table),
        call_ensures(share_control, (control,), shared),
    ensures
        table.wf(),
        table.connections@.len() == 0,
        forall|handle: SocketHandle| !#[trigger] set_sockets(table.set).dom().contains(handle),
        made_around(*shared) == control,
{
}

} // verus!

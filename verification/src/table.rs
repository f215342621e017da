//! The open connections: smoltcp's set of sockets, and for each socket in it the
//! control of its stream.
use crate::control::{ControlView, Step};
use crate::shared::{guard_mut, guarded, lock, turn, SharedControl};
use crate::socket::{tcp_view, TcpState};
use crate::waker::Wakeups;
use smoltcp::iface::{SocketHandle, SocketSet};
use smoltcp::socket::tcp::Socket as TcpSocket;
use vstd::prelude::*;

verus! {

#[verifier::external_type_specification]
#[verifier::external_body]
pub struct ExSocketHandle(SocketHandle);

#[verifier::external_type_specification]
#[verifier::external_body]
pub struct ExSocketSet<'a>(SocketSet<'a>);

/// The TCP sockets in a set, by their handles.
pub uninterp spec fn set_sockets(set: SocketSet<'static>) -> Map<SocketHandle, TcpSocket<'static>>;

/// Whether a set owns its storage, which then grows as needed.
pub uninterp spec fn set_grows(set: SocketSet<'static>) -> bool;

/// `SocketSet::new` with an empty vector as its storage.
#[verifier::external_body]
fn set_new() -> (fresh: SocketSet<'static>)
    ensures
        set_sockets(fresh).dom() == Set::<SocketHandle>::empty(),
        set_grows(fresh),
{
    SocketSet::new(Vec::new())
}

/// `SocketSet::add`: the socket gets a handle that no other socket in the set has.
/// Panics where the set is full and its storage cannot grow.
#[verifier::external_body]
fn set_add(set: &mut SocketSet<'static>, socket: TcpSocket<'static>) -> (handle: SocketHandle)
    requires
        set_grows(*old(set)),
    ensures
        !set_sockets(*old(set)).dom().contains(handle),
        set_sockets(*final(set)) == set_sockets(*old(set)).insert(handle, socket),
        set_grows(*final(set)),
{
    set.add(socket)
}

/// `SocketSet::get_mut`: access to one socket. Panics where the handle is not that
/// of a TCP socket in the set.
#[verifier::external_body]
fn set_get_mut<'a>(set: &'a mut SocketSet<'static>, handle: SocketHandle) -> (socket: &'a mut
    TcpSocket<'static>)
    requires
        set_sockets(*old(set)).dom().contains(handle),
    ensures
        *socket == set_sockets(*old(set))[handle],
        set_sockets(*final(set)) == set_sockets(*old(set)).insert(handle, *final(socket)),
        set_grows(*final(set)) == set_grows(*old(set)),
{
    set.get_mut::<TcpSocket<'static>>(handle)
}

/// `SocketSet::remove`: takes a socket out. Panics where the handle is not that of
/// a socket in the set.
#[verifier::external_body]
fn set_remove(set: &mut SocketSet<'static>, handle: SocketHandle)
    requires
        set_sockets(*old(set)).dom().contains(handle),
    ensures
        set_sockets(*final(set)) == set_sockets(*old(set)).remove(handle),
        set_grows(*final(set)) == set_grows(*old(set)),
{
    set.remove(handle);
}

/// `SocketHandle::eq`.
#[verifier::external_body]
fn same_handle(a: &SocketHandle, b: &SocketHandle) -> (same: bool)
    ensures
        same == (*a == *b),
{
    a == b
}

/// A connection that was just opened.
pub struct NewConnection {
    pub control: SharedControl,
    pub socket: TcpSocket<'static>,
}

/// A connection whose socket is in the set.
pub struct Connection {
    pub handle: SocketHandle,
    pub control: SharedControl,
}

/// The open connections.
pub struct SocketTable {
    pub set: SocketSet<'static>,
    pub connections: Vec<Connection>,
}

/// Whether one of the connections has the handle.
pub open spec fn listed(connections: Seq<Connection>, handle: SocketHandle) -> bool {
    exists|i: int| 0 <= i < connections.len() && (#[trigger] connections[i]).handle == handle
}

/// What servicing the connection at `i` led to, where its control was found to be
/// `controls[i]`.
pub open spec fn step_at(
    connections: Seq<Connection>,
    sockets: Map<SocketHandle, TcpSocket<'static>>,
    controls: Seq<ControlView>,
    i: int,
) -> Step {
    controls[i].step(tcp_view(sockets[connections[i].handle]))
}

/// The handles of the first `n` connections whose sockets are done, in order.
pub open spec fn finished(
    connections: Seq<Connection>,
    sockets: Map<SocketHandle, TcpSocket<'static>>,
    controls: Seq<ControlView>,
    n: int,
) -> Seq<SocketHandle>
    decreases n,
{
    if n <= 0 {
        Seq::empty()
    } else {
        let before = finished(connections, sockets, controls, n - 1);
        if step_at(connections, sockets, controls, n - 1).finished {
            before.push(connections[n - 1].handle)
        } else {
            before
        }
    }
}

/// What servicing every connection once leads to, where `controls` are the states
/// in which their controls were found behind their locks: each control and its
/// socket take their step together before the lock is given back, the other sockets
/// stay as they are, and it is known who is to be woken and which sockets are done.
pub open spec fn serviced(
    connections: Seq<Connection>,
    before: Map<SocketHandle, TcpSocket<'static>>,
    controls: Seq<ControlView>,
    after: Map<SocketHandle, TcpSocket<'static>>,
    wakeups: Seq<Wakeups>,
    closed: Seq<SocketHandle>,
) -> bool {
    &&& controls.len() == connections.len()
    &&& forall|i: int|
        0 <= i < connections.len() ==> turn(
            *connections[i].control,
            #[trigger] controls[i],
            step_at(connections, before, controls, i).control,
        )
    &&& after.dom() == before.dom()
    &&& forall|i: int|
        0 <= i < connections.len() ==> tcp_view(after[(#[trigger] connections[i]).handle])
            == step_at(connections, before, controls, i).socket
    &&& forall|handle: SocketHandle| #[trigger]
        before.dom().contains(handle) && !listed(connections, handle) ==> after[handle]
            == before[handle]
    &&& wakeups.len() == connections.len()
    &&& forall|i: int|
        0 <= i < connections.len() ==> #[trigger] wakeups[i] == step_at(
            connections,
            before,
            controls,
            i,
        ).wakeups
    &&& closed == finished(connections, before, controls, connections.len() as int)
}

/// Whether `handles` are those of the connections that were done when they were
/// looked at, each once: the socket was closed, or both directions of the stream
/// were.
pub open spec fn lists_the_done(
    connections: Seq<Connection>,
    sockets: Map<SocketHandle, TcpSocket<'static>>,
    controls: Seq<ControlView>,
    handles: Seq<SocketHandle>,
) -> bool {
    &&& handles.no_duplicates()
    &&& forall|handle: SocketHandle| #[trigger]
        handles.contains(handle) <==> exists|i: int|
            {
                &&& 0 <= i < connections.len()
                &&& (#[trigger] connections[i]).handle == handle
                &&& tcp_view(sockets[handle]).state == TcpState::Closed || controls[i].dropped()
            }
}

/// Whether a table is another one with one more connection, which came last and got
/// a handle of its own.
pub open spec fn inserted(
    before: SocketTable,
    connection: NewConnection,
    after: SocketTable,
) -> bool {
    let last = after.connections@.last();
    &&& after.connections@.len() == before.connections@.len() + 1
    &&& after.connections@.drop_last() == before.connections@
    &&& last.control == connection.control
    &&& set_sockets(after.set) == set_sockets(before.set).insert(last.handle, connection.socket)
    &&& !set_sockets(before.set).dom().contains(last.handle)
}

impl SocketTable {
    /// Whether the table lists every socket in the set once, and nothing else.
    pub open spec fn wf(self) -> bool {
        &&& set_grows(self.set)
        &&& forall|i: int, j: int|
            0 <= i < j < self.connections@.len() ==> (#[trigger] self.connections@[i]).handle != (
            #[trigger] self.connections@[j]).handle
        &&& forall|handle: SocketHandle| #[trigger]
            set_sockets(self.set).dom().contains(handle) <==> listed(self.connections@, handle)
    }

    /// A table without connections.
    pub fn new() -> (table: SocketTable)
        ensures
            table.wf(),
            table.connections@ == Seq::<Connection>::empty(),
            set_sockets(table.set).dom() == Set::<SocketHandle>::empty(),
    {
        SocketTable { set: set_new(), connections: Vec::new() }
    }

    /// Takes in a connection.
    pub fn insert(&mut self, connection: NewConnection)
        requires
            old(self).wf(),
        ensures
            final(self).wf(),
            inserted(*old(self), connection, *final(self)),
    {
        let ghost listed_before = self.connections@;
        let handle = set_add(&mut self.set, connection.socket);
        self.connections.push(Connection { handle, control: connection.control });
        proof {
            let listed_after = self.connections@;
            assert(listed_after.drop_last() =~= listed_before);
            assert forall|h: SocketHandle| #[trigger]
                set_sockets(self.set).dom().contains(h) <==> listed(listed_after, h) by {
                if listed(listed_before, h) {
                    let i = choose|i: int|
                        0 <= i < listed_before.len() && (#[trigger] listed_before[i]).handle == h;
                    assert(listed_after[i].handle == h);
                }
                if h == handle {
                    assert(listed_after.last().handle == h);
                }
                if listed(listed_after, h) && h != handle {
                    let i = choose|i: int|
                        0 <= i < listed_after.len() && (#[trigger] listed_after[i]).handle == h;
                    assert(listed_before[i].handle == h);
                }
            }
            assert forall|i: int, j: int|
                0 <= i < j < listed_after.len() implies (#[trigger] listed_after[i]).handle != (
            #[trigger] listed_after[j]).handle by {
                assert(listed_before[i].handle == listed_after[i].handle);
                if j < listed_before.len() {
                    assert(listed_before[j].handle == listed_after[j].handle);
                } else {
                    assert(listed(listed_before, listed_before[i].handle));
                }
            }
        }
    }

    /// Services every connection once. Returns the handles of the sockets that are
    /// done, and who is to be woken.
    pub fn process_sockets(&mut self) -> (res: (Vec<SocketHandle>, Vec<Wakeups>))
        requires
            old(self).wf(),
        ensures
            final(self).wf(),
            final(self).connections == old(self).connections,
            exists|controls: Seq<ControlView>|
                {
                    &&& #[trigger] serviced(
                        old(self).connections@,
                        set_sockets(old(self).set),
                        controls,
                        set_sockets(final(self).set),
                        res.1@,
                        res.0@,
                    )
                    &&& lists_the_done(
                        old(self).connections@,
                        set_sockets(old(self).set),
                        controls,
                        res.0@,
                    )
                },
    {
        let ghost connections = self.connections@;
        let ghost sockets = set_sockets(self.set);
        let ghost mut controls: Seq<ControlView> = Seq::empty();
        let mut closed_sockets: Vec<SocketHandle> = Vec::new();
        let mut wakeups: Vec<Wakeups> = Vec::new();
        let mut n: usize = 0;
        while n < self.connections.len()
            invariant
                old(self).wf(),
                connections == old(self).connections@,
                sockets == set_sockets(old(self).set),
                self.connections == old(self).connections,
                set_grows(self.set),
                set_sockets(self.set).dom() == sockets.dom(),
                n <= connections.len(),
                controls.len() == n,
                forall|i: int|
                    0 <= i < n ==> turn(
                        *connections[i].control,
                        #[trigger] controls[i],
                        step_at(connections, sockets, controls, i).control,
                    ),
                wakeups@.len() == n,
                forall|i: int|
                    0 <= i < n ==> tcp_view(
                        set_sockets(self.set)[(#[trigger] connections[i]).handle],
                    ) == step_at(connections, sockets, controls, i).socket,
                forall|i: int|
                    n <= i < connections.len() ==> set_sockets(self.set)[(
                    #[trigger] connections[i]).handle] == sockets[connections[i].handle],
                forall|handle: SocketHandle| #[trigger]
                    sockets.dom().contains(handle) && !listed(connections, handle)
                        ==> set_sockets(self.set)[handle] == sockets[handle],
                forall|i: int|
                    0 <= i < n ==> #[trigger] wakeups@[i] == step_at(
                        connections,
                        sockets,
                        controls,
                        i,
                    ).wakeups,
                closed_sockets@ == finished(connections, sockets, controls, n as int),
            decreases connections.len() - n,
        {
            let handle = self.connections[n].handle;
            assert(listed(connections, connections[n as int].handle));
            let socket = set_get_mut(&mut self.set, handle);
            let mut guard = lock(&self.connections[n].control);
            let ghost before = guarded(guard)@;
            let control = guard_mut(&mut guard);
            let (wakes, done) = control.process_socket(socket);
            let ghost left = control@;
            assert(guarded(guard)@ == left && turn(*connections[n as int].control, before, left));
            let ghost controls_before = controls;
            proof {
                controls = controls.push(before);
                lemma_finished(connections, sockets, controls_before, controls, n as int);
                assert forall|i: int| 0 <= i < n implies step_at(
                    connections,
                    sockets,
                    controls,
                    i,
                ) == step_at(connections, sockets, controls_before, i) by {
                    assert(controls[i] == controls_before[i]);
                }
            }
            wakeups.push(wakes);
            if done {
                closed_sockets.push(handle);
            }
            n += 1;
        }
        let res = (closed_sockets, wakeups);
        proof {
            lemma_finished_are_the_done(connections, sockets, controls);
        }
        assert(serviced(
            old(self).connections@,
            set_sockets(old(self).set),
            controls,
            set_sockets(self.set),
            res.1@,
            res.0@,
        ));
        res
    }

    /// Takes out the connections with the given handles, and their sockets.
    pub fn remove_closed(&mut self, closed: &Vec<SocketHandle>)
        requires
            old(self).wf(),
        ensures
            final(self).wf(),
            final(self).connections@ == old(self).connections@.filter(
                |connection: Connection| !closed@.contains(connection.handle),
            ),
            set_sockets(final(self).set) == set_sockets(old(self).set).remove_keys(
                closed@.to_set(),
            ),
    {
        let ghost connections = self.connections@;
        let ghost sockets = set_sockets(self.set);
        let ghost stays = |connection: Connection| !closed@.contains(connection.handle);
        let ghost mut seen: int = 0;
        let ghost mut gone: Set<SocketHandle> = Set::empty();
        let mut kept: usize = 0;
        assert(connections.take(0).filter(stays) =~= Seq::empty());
        assert(Seq::<Connection>::empty() + connections.skip(0) =~= connections);
        assert(sockets.remove_keys(gone) =~= sockets);
        while kept < self.connections.len()
            invariant
                self.wf(),
                connections == old(self).connections@,
                stays == (|connection: Connection| !closed@.contains(connection.handle)),
                0 <= seen <= connections.len(),
                connections.take(seen).filter(stays).len() == kept,
                self.connections@ == connections.take(seen).filter(stays) + connections.skip(seen),
                forall|handle: SocketHandle| #[trigger]
                    gone.contains(handle) <==> closed@.contains(handle) && listed(
                        connections.take(seen),
                        handle,
                    ),
                set_sockets(self.set) == sockets.remove_keys(gone),
            decreases connections.len() - seen,
        {
            let ghost before = self.connections@;
            let ghost front = connections.take(seen).filter(stays);
            let handle = self.connections[kept].handle;
            proof {
                assert(before[kept as int] == connections[seen]);
                assert(connections.take(seen + 1).drop_last() =~= connections.take(seen));
                assert(connections.take(seen + 1).last() == connections[seen]);
                reveal_with_fuel(Seq::filter, 2);
                assert(listed(before, before[kept as int].handle));
                lemma_listed_push(connections, seen);
            }
            if contains_handle(closed, &handle) {
                self.connections.remove(kept);
                set_remove(&mut self.set, handle);
                proof {
                    lemma_listed_remove(before, kept as int);
                    assert(connections.take(seen + 1).filter(stays) =~= front);
                    assert(self.connections@ =~= front + connections.skip(seen + 1));
                    assert(sockets.remove_keys(gone).remove(handle) =~= sockets.remove_keys(
                        gone.insert(handle),
                    ));
                    gone = gone.insert(handle);
                }
            } else {
                proof {
                    assert(connections.take(seen + 1).filter(stays) =~= front.push(
                        connections[seen],
                    ));
                    assert(self.connections@ =~= front.push(connections[seen]) + connections.skip(
                        seen + 1,
                    ));
                }
                kept += 1;
            }
            proof {
                seen = seen + 1;
            }
        }
        proof {
            assert(seen == connections.len());
            assert(connections.take(seen) =~= connections);
            assert(self.connections@ =~= connections.filter(stays));
            assert forall|handle: SocketHandle|
                sockets.dom().contains(handle) implies gone.contains(handle)
                == closed@.to_set().contains(handle) by {}
            assert(sockets.remove_keys(gone) =~= sockets.remove_keys(closed@.to_set()));
        }
    }

    /// Services every connection once, and takes out those that are done. Returns
    /// who is to be woken. No socket that is left is closed.
    pub fn service(&mut self) -> (wakeups: Vec<Wakeups>)
        requires
            old(self).wf(),
        ensures
            final(self).wf(),
            exists|
                controls: Seq<ControlView>,
                after: Map<SocketHandle, TcpSocket<'static>>,
                closed: Seq<SocketHandle>,
            |
                {
                    &&& #[trigger] serviced(
                        old(self).connections@,
                        set_sockets(old(self).set),
                        controls,
                        after,
                        wakeups@,
                        closed,
                    )
                    &&& lists_the_done(
                        old(self).connections@,
                        set_sockets(old(self).set),
                        controls,
                        closed,
                    )
                    &&& final(self).connections@ == old(self).connections@.filter(
                        |connection: Connection| !closed.contains(connection.handle),
                    )
                    &&& set_sockets(final(self).set) == after.remove_keys(closed.to_set())
                },
            forall|handle: SocketHandle| #[trigger]
                set_sockets(final(self).set).dom().contains(handle) ==> tcp_view(
                    set_sockets(final(self).set)[handle],
                ).state != TcpState::Closed,
    {
        let ghost connections = self.connections@;
        let ghost sockets = set_sockets(self.set);
        let (closed, wakeups) = self.process_sockets();
        let ghost after = set_sockets(self.set);
        self.remove_closed(&closed);
        proof {
            let controls = choose|controls: Seq<ControlView>|
                #[trigger] serviced(connections, sockets, controls, after, wakeups@, closed@)
                    && lists_the_done(connections, sockets, controls, closed@);
            assert(serviced(connections, sockets, controls, after, wakeups@, closed@));
            assert forall|handle: SocketHandle| #[trigger]
                set_sockets(self.set).dom().contains(handle) implies tcp_view(
                set_sockets(self.set)[handle],
            ).state != TcpState::Closed by {
                assert(listed(connections, handle));
                let i = choose|i: int|
                    0 <= i < connections.len() && (#[trigger] connections[i]).handle == handle;
                if step_at(connections, sockets, controls, i).finished {
                    lemma_finished_contains(
                        connections,
                        sockets,
                        controls,
                        connections.len() as int,
                        i,
                    );
                }
            }
        }
        wakeups
    }
}

/// Whether a handle is among others.
fn contains_handle(handles: &Vec<SocketHandle>, handle: &SocketHandle) -> (yes: bool)
    ensures
        yes == handles@.contains(*handle),
{
    let mut i: usize = 0;
    while i < handles.len()
        invariant
            i <= handles@.len(),
            forall|j: int| 0 <= j < i ==> handles@[j] != *handle,
        decreases handles@.len() - i,
    {
        if same_handle(&handles[i], handle) {
            return true;
        }
        i += 1;
    }
    false
}

/// One more connection adds its handle.
proof fn lemma_listed_push(connections: Seq<Connection>, n: int)
    requires
        0 <= n < connections.len(),
    ensures
        forall|handle: SocketHandle| #[trigger]
            listed(connections.take(n + 1), handle) <==> listed(connections.take(n), handle)
                || handle == connections[n].handle,
{
    assert forall|handle: SocketHandle| #[trigger]
        listed(connections.take(n + 1), handle) <==> listed(connections.take(n), handle) || handle
            == connections[n].handle by {
        let more = connections.take(n + 1);
        let less = connections.take(n);
        if listed(less, handle) {
            let i = choose|i: int| 0 <= i < less.len() && (#[trigger] less[i]).handle == handle;
            assert(more[i].handle == handle);
        }
        if handle == connections[n].handle {
            assert(more[n].handle == handle);
        }
        if listed(more, handle) && handle != connections[n].handle {
            let i = choose|i: int| 0 <= i < more.len() && (#[trigger] more[i]).handle == handle;
            assert(less[i].handle == handle);
        }
    }
}

/// Without one connection, its handle is gone, and the others are still distinct.
proof fn lemma_listed_remove(connections: Seq<Connection>, n: int)
    requires
        0 <= n < connections.len(),
        forall|i: int, j: int|
            0 <= i < j < connections.len() ==> (#[trigger] connections[i]).handle != (
            #[trigger] connections[j]).handle,
    ensures
        forall|i: int, j: int|
            0 <= i < j < connections.len() - 1 ==> (#[trigger] connections.remove(n)[i]).handle != (
            #[trigger] connections.remove(n)[j]).handle,
        forall|handle: SocketHandle| #[trigger]
            listed(connections.remove(n), handle) <==> listed(connections, handle) && handle
                != connections[n].handle,
{
    let less = connections.remove(n);
    assert forall|i: int, j: int|
        0 <= i < j < connections.len() - 1 implies (#[trigger] less[i]).handle != (
    #[trigger] less[j]).handle by {
        let p = if i < n { i } else { i + 1 };
        let q = if j < n { j } else { j + 1 };
        assert(connections[p].handle != connections[q].handle);
    }
    assert forall|handle: SocketHandle| #[trigger]
        listed(less, handle) <==> listed(connections, handle) && handle
            != connections[n].handle by {
        if listed(less, handle) {
            let i = choose|i: int| 0 <= i < less.len() && (#[trigger] less[i]).handle == handle;
            let p = if i < n { i } else { i + 1 };
            assert(connections[p].handle == handle);
            assert(connections[n].handle != handle);
        }
        if listed(connections, handle) && handle != connections[n].handle {
            let i = choose|i: int|
                0 <= i < connections.len() && (#[trigger] connections[i]).handle == handle;
            let p = if i < n { i } else { i - 1 };
            assert(less[p].handle == handle);
        }
    }
}

/// The handle of a finished socket is among those of the finished sockets.
proof fn lemma_finished_contains(
    connections: Seq<Connection>,
    sockets: Map<SocketHandle, TcpSocket<'static>>,
    controls: Seq<ControlView>,
    n: int,
    i: int,
)
    requires
        0 <= i < n,
        step_at(connections, sockets, controls, i).finished,
    ensures
        finished(connections, sockets, controls, n).contains(connections[i].handle),
    decreases n,
{
    let before = finished(connections, sockets, controls, n - 1);
    let all = finished(connections, sockets, controls, n);
    if i == n - 1 {
        assert(all.last() == connections[i].handle);
    } else {
        lemma_finished_contains(connections, sockets, controls, n - 1, i);
        let k = choose|k: int| 0 <= k < before.len() && before[k] == connections[i].handle;
        assert(all[k] == connections[i].handle);
    }
}

/// The finished sockets are those that were done when they were looked at.
proof fn lemma_finished_are_the_done(
    connections: Seq<Connection>,
    sockets: Map<SocketHandle, TcpSocket<'static>>,
    controls: Seq<ControlView>,
)
    requires
        forall|i: int, j: int|
            0 <= i < j < connections.len() ==> (#[trigger] connections[i]).handle != (
            #[trigger] connections[j]).handle,
    ensures
        lists_the_done(
            connections,
            sockets,
            controls,
            finished(connections, sockets, controls, connections.len() as int),
        ),
{
    let n = connections.len() as int;
    let handles = finished(connections, sockets, controls, n);
    lemma_finished_once(connections, sockets, controls, n);
    assert forall|handle: SocketHandle| #[trigger] handles.contains(handle) <==> exists|i: int|
        {
            &&& 0 <= i < connections.len()
            &&& (#[trigger] connections[i]).handle == handle
            &&& tcp_view(sockets[handle]).state == TcpState::Closed || controls[i].dropped()
        } by {
        if handles.contains(handle) {
            let i = choose|i: int|
                0 <= i < n && (#[trigger] connections[i]).handle == handle && step_at(
                    connections,
                    sockets,
                    controls,
                    i,
                ).finished;
            assert(connections[i].handle == handle);
        }
        if exists|i: int|
            {
                &&& 0 <= i < connections.len()
                &&& (#[trigger] connections[i]).handle == handle
                &&& tcp_view(sockets[handle]).state == TcpState::Closed || controls[i].dropped()
            } {
            let i = choose|i: int|
                {
                    &&& 0 <= i < connections.len()
                    &&& (#[trigger] connections[i]).handle == handle
                    &&& tcp_view(sockets[handle]).state == TcpState::Closed || controls[i].dropped()
                };
            lemma_finished_contains(connections, sockets, controls, n, i);
        }
    }
}

/// The handles of the finished sockets are handles of connections, each once.
proof fn lemma_finished_once(
    connections: Seq<Connection>,
    sockets: Map<SocketHandle, TcpSocket<'static>>,
    controls: Seq<ControlView>,
    n: int,
)
    requires
        0 <= n <= connections.len(),
        forall|i: int, j: int|
            0 <= i < j < connections.len() ==> (#[trigger] connections[i]).handle != (
            #[trigger] connections[j]).handle,
    ensures
        finished(connections, sockets, controls, n).no_duplicates(),
        forall|handle: SocketHandle| #[trigger]
            finished(connections, sockets, controls, n).contains(handle) ==> exists|i: int|
                0 <= i < n && (#[trigger] connections[i]).handle == handle && step_at(
                    connections,
                    sockets,
                    controls,
                    i,
                ).finished,
    decreases n,
{
    if n > 0 {
        lemma_finished_once(connections, sockets, controls, n - 1);
        let before = finished(connections, sockets, controls, n - 1);
        let all = finished(connections, sockets, controls, n);
        let last = connections[n - 1].handle;
        if before.contains(last) {
            let i = choose|i: int|
                0 <= i < n - 1 && (#[trigger] connections[i]).handle == last && step_at(
                    connections,
                    sockets,
                    controls,
                    i,
                ).finished;
            assert(connections[i].handle != connections[n - 1].handle);
        }
        assert forall|handle: SocketHandle| #[trigger] all.contains(handle) implies exists|i: int|
            0 <= i < n && (#[trigger] connections[i]).handle == handle && step_at(
                connections,
                sockets,
                controls,
                i,
            ).finished by {
            let k = choose|k: int| 0 <= k < all.len() && all[k] == handle;
            if k < before.len() {
                assert(before[k] == handle);
                assert(before.contains(handle));
                let i = choose|i: int|
                    0 <= i < n - 1 && (#[trigger] connections[i]).handle == handle && step_at(
                        connections,
                        sockets,
                        controls,
                        i,
                    ).finished;
                assert(connections[i].handle == handle);
            } else {
                assert(connections[n - 1].handle == handle);
            }
        }
        assert forall|a: int, b: int| 0 <= a < b < all.len() implies all[a] != all[b] by {
            if b == before.len() {
                assert(before[a] == all[a]);
                assert(before.contains(before[a]));
            }
        }
    }
}

/// The handles of finished sockets depend on the controls that were found so far.
proof fn lemma_finished(
    connections: Seq<Connection>,
    sockets: Map<SocketHandle, TcpSocket<'static>>,
    a: Seq<ControlView>,
    b: Seq<ControlView>,
    n: int,
)
    requires
        0 <= n <= a.len() <= b.len(),
        forall|i: int| 0 <= i < n ==> a[i] == b[i],
    ensures
        finished(connections, sockets, a, n) == finished(connections, sockets, b, n),
    decreases n,
{
    if n > 0 {
        lemma_finished(connections, sockets, a, b, n - 1);
    }
}

} // verus!

//! What holds of the sockets over more than one call.
use crate::addr::{endpoint_of, listening_at, IpEndpoint, SocketAddr};
use crate::bind_kind::BindKind;
use crate::error::{Error, ErrorKind, ErrorView, Refusal};
use crate::history::{
    all_added, all_out, flows_stay_in_order, raw_receiving_flows, raw_sending_flows,
    reading_flows, receiving_flows, rounds_of_one_listener, sending_flows, writing_flows,
    AcceptRound, RawReceiving, RawSending, Reading, Receiving, Sending, Writing,
};
use crate::plain::names;
use crate::poll::Poll;
use crate::raw_socket;
use crate::reactor::ReactorView;
use crate::stack::raw_layer;
use crate::stack::raw_layer::RawView;
use crate::stack::tcp_layer::{Ends, TcpView};
use crate::stack::udp_layer;
use crate::stack::udp_layer::{Outgoing, RecvError, SendError, UdpView};
use crate::tcp_socket::{
    accept_attempt, after_read, after_shutdown, after_write, connected_outcome, flush_outcome,
    handed_over, read_into, read_outcome, write_outcome, Accepted, TcpListener, TcpStream,
};
use crate::udp_socket;
use crate::udp_socket::{asks, left, offered, recv_outcome, taken, Metadata};
use smoltcp::iface::SocketHandle;
use vstd::prelude::*;

verus! {

/// An endpoint is not changed by being written as a socket address and read back.
pub proof fn endpoint_survives_socket_addr(ep: IpEndpoint)
    ensures
        endpoint_of(SocketAddr::of(ep.addr, ep.port)) == ep,
{
}

/// A socket address is not changed by being written as an endpoint and read back, unless it has
/// a flow label or a scope, which an endpoint cannot hold.
pub proof fn socket_addr_survives_endpoint(addr: SocketAddr)
    ensures
        SocketAddr::of(endpoint_of(addr).addr, endpoint_of(addr).port) == addr <==> addr.is_plain(),
{
}

/// Reporting an error once more changes nothing: it has the kind and the words that it had.
pub proof fn reporting_twice_is_reporting_once<E: Refusal>(e: E, once: Error, twice: Error)
    requires
        once@ == ErrorView::saying(ErrorKind::Other, e.text()),
        twice@ == ErrorView::saying(ErrorKind::Other, once.text()),
    ensures
        twice@ == once@,
        twice.text() == e.text(),
{
}

/// However often a stream is read, and however much arrives in between: what the readers got,
/// followed by what is left, is what was there at first, followed by what arrived. Nothing is
/// lost, nothing is given twice, and the order is kept.
pub proof fn reads_follow_the_stream(steps: Seq<Reading>, handle: SocketHandle)
    requires
        steps.len() > 0,
        forall|k: int| 0 <= k < steps.len() ==> (#[trigger] steps[k]).happened(handle),
        forall|j: int, k: int|
            0 <= j < k < steps.len() && k == j + 1
                ==> (#[trigger] steps[k]).before.tcp_at(handle).rx
                == (#[trigger] steps[j]).after.tcp_at(handle).rx,
    ensures
        ({
            let flows = reading_flows(steps, handle);
            steps[0].before.tcp_at(handle).rx + all_added(flows) == all_out(flows)
                + steps.last().after.tcp_at(handle).rx
        }),
{
    let flows = reading_flows(steps, handle);
    assert forall|k: int| 0 <= k < flows.len() implies (#[trigger] flows[k]).in_order() by {
        assert(steps[k].happened(handle));
        steps[k].is_in_order(handle);
    }
    assert forall|j: int, k: int| 0 <= j < k < flows.len() && k == j + 1 implies (
    #[trigger] flows[k]).before == (#[trigger] flows[j]).after by {
        assert(steps[k].before.tcp_at(handle).rx == steps[j].after.tcp_at(handle).rx);
    }
    flows_stay_in_order(flows);
}

/// Reading never touches what lies in the reader's buffer behind the octets that were read, and
/// the buffer keeps its length.
pub proof fn reads_keep_the_rest_of_the_buffer(socket: TcpView, buf: Seq<u8>)
    ensures
        read_into(socket, buf).len() == buf.len(),
        read_into(socket, buf).skip(socket.gives(buf.len()) as int) == buf.skip(
            socket.gives(buf.len()) as int,
        ),
{
    let n = socket.gives(buf.len()) as int;
    assert(read_into(socket, buf).skip(n) =~= buf.skip(n));
}

/// A reader with room is told of no octets only at the end of the stream: the peer has closed
/// in an orderly way, and everything that it sent has been read. That stays so at every further
/// attempt.
pub proof fn end_of_stream_is_final(
    before: ReactorView,
    handle: SocketHandle,
    room: nat,
    task: int,
)
    requires
        before.has_tcp(handle),
        room > 0,
        room <= usize::MAX,
        before.tcp_at(handle).rx.len() <= usize::MAX,
        read_outcome(before.tcp_at(handle), room) == Poll::Ready(Ok::<usize, ErrorView>(0)),
    ensures
        before.tcp_at(handle).fin_received,
        before.tcp_at(handle).rx.len() == 0,
        after_read(before, handle, room, task) == before,
{
}

/// However often a stream is written to, and however much the stack sends in between: what was
/// sent, followed by what still waits, is what waited at first, followed by what was taken from
/// the writers. Nothing is lost, nothing is sent twice, and the order is kept.
pub proof fn writes_append_to_the_stream(steps: Seq<Writing>, handle: SocketHandle)
    requires
        steps.len() > 0,
        forall|k: int| 0 <= k < steps.len() ==> (#[trigger] steps[k]).happened(handle),
        forall|j: int, k: int|
            0 <= j < k < steps.len() && k == j + 1
                ==> (#[trigger] steps[k]).before.tcp_at(handle).tx
                == (#[trigger] steps[j]).after.tcp_at(handle).tx,
    ensures
        ({
            let flows = writing_flows(steps, handle);
            steps[0].before.tcp_at(handle).tx + all_added(flows) == all_out(flows)
                + steps.last().after.tcp_at(handle).tx
        }),
{
    let flows = writing_flows(steps, handle);
    assert forall|k: int| 0 <= k < flows.len() implies (#[trigger] flows[k]).in_order() by {
        assert(steps[k].happened(handle));
        steps[k].is_in_order(handle);
    }
    assert forall|j: int, k: int| 0 <= j < k < flows.len() && k == j + 1 implies (
    #[trigger] flows[k]).before == (#[trigger] flows[j]).after by {
        assert(steps[k].before.tcp_at(handle).tx == steps[j].after.tcp_at(handle).tx);
    }
    flows_stay_in_order(flows);
}

/// A write never fills the transmit buffer beyond its capacity, and where it is told that it may
/// go on, at least one of the octets offered is taken.
pub proof fn writes_respect_the_capacity(
    before: ReactorView,
    handle: SocketHandle,
    data: Seq<u8>,
    task: int,
)
    requires
        before.has_tcp(handle),
        before.tcp_at(handle).tx.len() <= before.tcp_at(handle).tx_capacity,
    ensures
        ({
            let socket = before.tcp_at(handle);
            let after = after_write(before, handle, data, task).tcp_at(handle);
            &&& after.tx.len() <= after.tx_capacity
            &&& after.tx_capacity == socket.tx_capacity
            &&& socket.can_send() && data.len() > 0 ==> after.tx.len() > socket.tx.len()
        }),
{
}

/// A flush right after a write that took octets has to wait.
pub proof fn flush_waits_for_what_was_written(
    before: ReactorView,
    handle: SocketHandle,
    data: Seq<u8>,
    task: int,
)
    requires
        before.has_tcp(handle),
        before.tcp_at(handle).can_send(),
        data.len() > 0,
    ensures
        flush_outcome(after_write(before, handle, data, task).tcp_at(handle)) is Pending,
{
}

/// Whether the sending half of a stream, if it was closed before, is closed after.
///
/// Work of the stack keeps it so: segments and timers lead a closed half only on to other states
/// of a closed half, down to `Closed`, and a stream's socket is never asked to listen or connect
/// again. The other operations of the library are proved to keep it, by
/// `closed_writing_stays_closed`.
pub open spec fn keeps_writing_closed(
    before: ReactorView,
    after: ReactorView,
    handle: SocketHandle,
) -> bool {
    before.has_tcp(handle) && before.tcp_at(handle).write_closed() ==> after.has_tcp(handle)
        && after.tcp_at(handle).write_closed()
}

/// A shutdown closes the sending half of a stream, and nothing more can be written: a write that
/// follows is refused, and queues nothing.
pub proof fn shutdown_ends_writing(
    before: ReactorView,
    handle: SocketHandle,
    data: Seq<u8>,
    task: int,
)
    requires
        before.has_tcp(handle),
    ensures
        ({
            let after = after_shutdown(before, handle);
            &&& after.has_tcp(handle)
            &&& after.tcp_at(handle).write_closed()
            &&& write_outcome(after.tcp_at(handle), data.len()) == Poll::Ready(
                Err::<usize, ErrorView>(ErrorView::bare(ErrorKind::BrokenPipe)),
            )
            &&& after_write(after, handle, data, task) == after
        }),
{
}

/// Once the sending half of a stream is closed, nothing that is done through the stream opens it
/// again: neither reading, writing, waiting, nor another shutdown; nor what is done to another
/// socket.
pub proof fn closed_writing_stays_closed(
    before: ReactorView,
    handle: SocketHandle,
    other: SocketHandle,
    room: nat,
    data: Seq<u8>,
    task: int,
    tcp: TcpView,
    udp: UdpView,
    raw: RawView,
)
    requires
        before.has_tcp(handle),
        other != handle,
    ensures
        keeps_writing_closed(before, after_read(before, handle, room, task), handle),
        keeps_writing_closed(before, after_write(before, handle, data, task), handle),
        keeps_writing_closed(before, after_shutdown(before, handle), handle),
        keeps_writing_closed(
            before,
            before.with_tcp(handle, before.tcp_at(handle).awaited_by_writer(task)),
            handle,
        ),
        keeps_writing_closed(before, before.with_tcp(other, tcp), handle),
        keeps_writing_closed(before, before.with_udp(other, udp), handle),
        keeps_writing_closed(before, before.with_raw(other, raw), handle),
        keeps_writing_closed(before, before.without(other), handle),
        keeps_writing_closed(before, before.notify(), handle),
{
}

/// No write succeeds after a shutdown, however much later: through every history of the reactor
/// that begins with the shutdown, of whatever length, in which each step keeps a closed half
/// closed, every write is refused with `BrokenPipe` and queues nothing.
pub proof fn no_write_succeeds_after_shutdown(
    before: ReactorView,
    handle: SocketHandle,
    history: Seq<ReactorView>,
    at: int,
    data: Seq<u8>,
    task: int,
)
    requires
        before.has_tcp(handle),
        0 <= at < history.len(),
        history[0] == after_shutdown(before, handle),
        forall|i: int, j: int|
            0 <= i < j < history.len() && j == i + 1 ==> keeps_writing_closed(
                #[trigger] history[i],
                #[trigger] history[j],
                handle,
            ),
    ensures
        history[at].has_tcp(handle),
        history[at].tcp_at(handle).write_closed(),
        write_outcome(history[at].tcp_at(handle), data.len()) == Poll::Ready(
            Err::<usize, ErrorView>(ErrorView::bare(ErrorKind::BrokenPipe)),
        ),
        after_write(history[at], handle, data, task) == history[at],
    decreases at,
{
    if at == 0 {
        shutdown_ends_writing(before, handle, data, task);
    } else {
        no_write_succeeds_after_shutdown(before, handle, history, at - 1, data, task);
        assert(keeps_writing_closed(history[at - 1], history[at], handle));
    }
}

/// A shutdown takes nothing away: what was written stays queued, what was received stays to be
/// read, and on a connection that was made, a reader is told the same as before.
pub proof fn shutdown_keeps_the_data(before: ReactorView, handle: SocketHandle, room: nat)
    requires
        before.has_tcp(handle),
    ensures
        ({
            let socket = before.tcp_at(handle);
            let after = after_shutdown(before, handle).tcp_at(handle);
            &&& after.tx == socket.tx
            &&& after.rx == socket.rx
            &&& after.fin_received == socket.fin_received
            &&& after.ends == socket.ends
            &&& socket.may_send() ==> read_outcome(after, room) == read_outcome(socket, room)
        }),
{
}

/// A second shutdown changes no socket any more.
pub proof fn shutdown_twice_is_shutdown_once(before: ReactorView, handle: SocketHandle)
    requires
        before.has_tcp(handle),
    ensures
        ({
            let once = after_shutdown(before, handle);
            after_shutdown(once, handle).sockets == once.sockets
        }),
{
    let once = after_shutdown(before, handle);
    assert(after_shutdown(once, handle).sockets =~= once.sockets);
}

/// A socket that has just begun to connect is not connected yet, and has not failed.
pub proof fn connecting_takes_time(socket: TcpView, ends: Ends)
    ensures
        connected_outcome(socket.connecting(ends)) is Pending,
{
}

/// A connection that is accepted gets the socket on which it was established, as it is. The
/// listener goes on, on another socket, and listens on the address that it was bound to; and it
/// reports the same address as before.
pub proof fn accepting_goes_on_listening(
    before: TcpListener,
    after: TcpListener,
    reactor_before: ReactorView,
    reactor_after: ReactorView,
    task: int,
    outcome: Poll<Result<Accepted, ErrorView>>,
)
    requires
        reactor_before.has_tcp(before@.handle),
        accept_attempt(before, after, reactor_before, reactor_after, task, outcome),
        outcome matches Poll::Ready(Ok(accepted)) && accepted is Connection,
    ensures
        ({
            let stream = outcome->Ready_0->Ok_0->Connection_0;
            &&& after@.bind_kind == before@.bind_kind
            &&& before@.bind_kind is Exact
            &&& stream@.handle != after@.handle
            &&& reactor_after.has_tcp(stream@.handle)
            &&& reactor_after.tcp_at(stream@.handle) == reactor_before.tcp_at(before@.handle)
            &&& reactor_after.tcp_at(stream@.handle).state is Established
            &&& reactor_after.has_tcp(after@.handle)
            &&& reactor_after.tcp_at(after@.handle).state is Listen
            &&& reactor_after.tcp_at(after@.handle).listen_endpoint == listening_at(
                endpoint_of(before@.bind_kind->Exact_0),
            )
        }),
{
}

/// An attempt to accept that has to wait, or fails, leaves the listener as it was, on its
/// socket.
pub proof fn accepting_in_vain_keeps_the_listener(
    before: TcpListener,
    after: TcpListener,
    reactor_before: ReactorView,
    reactor_after: ReactorView,
    task: int,
    outcome: Poll<Result<Accepted, ErrorView>>,
)
    requires
        reactor_before.has_tcp(before@.handle),
        accept_attempt(before, after, reactor_before, reactor_after, task, outcome),
        !(outcome matches Poll::Ready(Ok(_))),
    ensures
        after@ == before@,
        reactor_after.sockets.dom() == reactor_before.sockets.dom(),
        forall|other: SocketHandle|
            other != before@.handle && reactor_before.sockets.contains_key(other)
                ==> reactor_after.sockets[other] == reactor_before.sockets[other],
{
    assert(reactor_after.sockets.dom() =~= reactor_before.sockets.dom());
}

/// A listener that takes every port accepts in two steps. After the first one nothing of the
/// listener has changed, and whatever the stack then makes of the new socket, the second step
/// can be taken. After it the stream has the socket on which the connection was established, as
/// it is, and the listener goes on with the new one, bound to the same ports as before.
pub proof fn accepting_on_every_port_takes_two_steps(
    before: TcpListener,
    middle: TcpListener,
    after: TcpListener,
    reactor_before: ReactorView,
    reactor_middle: ReactorView,
    new_socket: TcpView,
    task: int,
    outcome: Poll<Result<Accepted, ErrorView>>,
    stream: TcpStream,
    peer: SocketAddr,
)
    requires
        reactor_before.has_tcp(before@.handle),
        accept_attempt(before, middle, reactor_before, reactor_middle, task, outcome),
        outcome matches Poll::Ready(Ok(accepted)) && accepted is Relisten,
    ensures
        ({
            let new_handle = outcome->Ready_0->Ok_0->Relisten_handle;
            let asked = reactor_middle.with_tcp(new_handle, new_socket);
            let ends = asked.tcp_at(middle@.handle).ends;
            &&& middle@ == before@
            &&& before@.bind_kind is Wildcard
            &&& before@.bind_kind->Wildcard_0 == outcome->Ready_0->Ok_0->Relisten_addr
            &&& asked.has_tcp(middle@.handle)
            &&& asked.has_tcp(new_handle)
            &&& new_handle != middle@.handle
            &&& ends is Some
            &&& handed_over(middle, after, new_handle, ends->0, stream, peer) ==> {
                &&& after@.bind_kind == before@.bind_kind
                &&& after@.handle == new_handle
                &&& asked.tcp_at(stream@.handle) == reactor_before.tcp_at(before@.handle)
                &&& asked.tcp_at(stream@.handle).state is Established
            }
        }),
{
}

/// In every round of a listener, of one address or of every port, a stream that is handed out has
/// the socket on which the connection was established, and names the two ends of that connection:
/// its local address the local end, its peer address, and the address told with it, the remote
/// end, address and port.
pub proof fn streams_name_the_ends_of_their_connections(round: AcceptRound)
    requires
        round.happened(),
    ensures
        ({
            let socket = round.reactor_before.tcp_at(round.before@.handle);
            &&& round.stream() matches Some(stream) ==> {
                &&& socket.state is Established
                &&& stream@.handle == round.before@.handle
                &&& socket.ends matches Some(ends)
                &&& endpoint_of(stream@.local_addr) == ends.local
                &&& endpoint_of(stream@.peer_addr) == ends.remote
                &&& names(stream@.local_addr, ends.local)
                &&& names(stream@.peer_addr, ends.remote)
            }
            &&& match round.outcome {
                Poll::Ready(Ok(Accepted::Connection(_, peer))) => names(
                    peer,
                    socket.ends->0.remote,
                ),
                Poll::Ready(Ok(Accepted::Relisten { handle: _, addr: _ })) => round.answer is Ok
                    ==> names(round.answer->Ok_0.1, socket.ends->0.remote),
                _ => true,
            }
        }),
{
}

/// Once a connection was handed out, the listener's next socket does not give it again: until a
/// connection is established on that socket, every attempt has to wait. Right after a connection
/// on a listener that is bound to one address, that is so.
pub proof fn a_connection_is_handed_out_once(round: AcceptRound, next: AcceptRound)
    requires
        round.happened(),
        round.stream() is Some,
        next.happened(),
        next.before@ == round.after@,
    ensures
        !(next.reactor_before.tcp_at(next.before@.handle).state is Established) ==> {
            &&& next.outcome is Pending
            &&& next.stream() is None
            &&& next.after@ == round.after@
        },
        round.before@.bind_kind is Exact && next.reactor_before == round.reactor_after
            ==> next.outcome is Pending,
{
}

/// In the rounds of one listener, a stream that was handed out never has the socket that the
/// listener goes on with.
pub proof fn the_listener_keeps_no_socket_of_a_stream(rounds: Seq<AcceptRound>, m: int, k: int)
    requires
        rounds_of_one_listener(rounds),
        0 <= m <= k < rounds.len(),
        rounds[m].stream() is Some,
    ensures
        rounds[m].stream()->0@.handle != rounds[k].after@.handle,
    decreases k,
{
    let round = rounds[k];
    assert(round.happened());
    if m < k {
        the_listener_keeps_no_socket_of_a_stream(rounds, m, k - 1);
        assert(round.before@ == rounds[k - 1].after@);
        assert(round.reactor_before.has_tcp(rounds[m].stream()->0@.handle));
    }
}

/// However many connections a listener hands out, no two streams have the same socket, as long
/// as they are kept; and none has the socket of the listener.
pub proof fn streams_have_sockets_of_their_own(rounds: Seq<AcceptRound>)
    requires
        rounds_of_one_listener(rounds),
    ensures
        forall|i: int, j: int|
            0 <= i < j < rounds.len() && (#[trigger] rounds[i]).stream() is Some && (
            #[trigger] rounds[j]).stream() is Some ==> rounds[i].stream()->0@.handle
                != rounds[j].stream()->0@.handle,
        forall|i: int|
            0 <= i < rounds.len() && (#[trigger] rounds[i]).stream() is Some
                ==> rounds[i].stream()->0@.handle != rounds.last().after@.handle,
{
    assert forall|i: int, j: int|
        0 <= i < j < rounds.len() && (#[trigger] rounds[i]).stream() is Some && (
        #[trigger] rounds[j]).stream() is Some implies rounds[i].stream()->0@.handle
        != rounds[j].stream()->0@.handle by {
        the_listener_keeps_no_socket_of_a_stream(rounds, i, j - 1);
        assert(rounds[j].happened());
        assert(rounds[j].before@ == rounds[j - 1].after@);
    }
    assert forall|i: int| 0 <= i < rounds.len() && (#[trigger] rounds[i]).stream() is Some implies
        rounds[i].stream()->0@.handle != rounds.last().after@.handle by {
        the_listener_keeps_no_socket_of_a_stream(rounds, i, rounds.len() - 1);
    }
}

/// Whatever is put into a reactor, taken out of it or asked of it, it can make further sockets
/// if it could before.
pub proof fn reactor_stays_able(
    before: ReactorView,
    handle: SocketHandle,
    tcp: TcpView,
    udp: UdpView,
    raw: RawView,
)
    requires
        before.wf(),
    ensures
        before.with_tcp(handle, tcp).wf(),
        before.with_udp(handle, udp).wf(),
        before.with_raw(handle, raw).wf(),
        before.without(handle).wf(),
        before.notify().wf(),
{
}

/// Dropping a socket undoes making it: every other socket is as it was, and the place is free.
pub proof fn dropping_undoes_making(
    before: ReactorView,
    handle: SocketHandle,
    tcp: TcpView,
    udp: UdpView,
    raw: RawView,
)
    requires
        !before.sockets.contains_key(handle),
    ensures
        before.with_tcp(handle, tcp).without(handle) == before,
        before.with_udp(handle, udp).without(handle) == before,
        before.with_raw(handle, raw).without(handle) == before,
{
}

/// What is done through one TCP socket leaves every other socket as it was, and removes none.
pub proof fn tcp_sockets_do_not_interfere(
    before: ReactorView,
    handle: SocketHandle,
    other: SocketHandle,
    room: nat,
    data: Seq<u8>,
    task: int,
)
    requires
        before.has_tcp(handle),
        other != handle,
    ensures
        after_read(before, handle, room, task).has_tcp(handle),
        after_write(before, handle, data, task).has_tcp(handle),
        after_shutdown(before, handle).has_tcp(handle),
        after_read(before, handle, room, task).sockets.contains_key(other)
            == before.sockets.contains_key(other),
        after_write(before, handle, data, task).sockets.contains_key(other)
            == before.sockets.contains_key(other),
        after_shutdown(before, handle).sockets.contains_key(other) == before.sockets.contains_key(
            other,
        ),
        after_read(before, handle, room, task).sockets[other] == before.sockets[other],
        after_write(before, handle, data, task).sockets[other] == before.sockets[other],
        after_shutdown(before, handle).sockets[other] == before.sockets[other],
{
}

/// What is done through one UDP socket leaves every other socket as it was, and removes none.
pub proof fn udp_sockets_do_not_interfere(
    before: ReactorView,
    handle: SocketHandle,
    other: SocketHandle,
    socket: UdpView,
    sent: Result<(), SendError>,
    received: Result<(usize, Metadata), RecvError>,
    task: int,
)
    requires
        before.has_udp(handle),
        other != handle,
    ensures
        ({
            let changed = before.with_udp(handle, socket);
            let after1 = udp_socket::after_send(changed, handle, sent, task);
            let after2 = udp_socket::after_recv(changed, handle, received, task);
            &&& after1.has_udp(handle)
            &&& after2.has_udp(handle)
            &&& after1.sockets.contains_key(other) == before.sockets.contains_key(other)
            &&& after2.sockets.contains_key(other) == before.sockets.contains_key(other)
            &&& after1.sockets[other] == before.sockets[other]
            &&& after2.sockets[other] == before.sockets[other]
        }),
{
}

/// What is done through one raw socket leaves every other socket as it was, and removes none.
pub proof fn raw_sockets_do_not_interfere(
    before: ReactorView,
    handle: SocketHandle,
    other: SocketHandle,
    data: Seq<u8>,
    tx_room: Set<nat>,
    task: int,
)
    requires
        before.has_raw(handle),
        other != handle,
    ensures
        ({
            let after1 = raw_socket::after_send(before, handle, data, tx_room, task);
            let after2 = raw_socket::after_recv(before, handle, task);
            &&& after1.has_raw(handle)
            &&& after2.has_raw(handle)
            &&& after1.sockets.contains_key(other) == before.sockets.contains_key(other)
            &&& after2.sockets.contains_key(other) == before.sockets.contains_key(other)
            &&& after1.sockets[other] == before.sockets[other]
            &&& after2.sockets[other] == before.sockets[other]
        }),
{
}

/// Of several tasks that wait to send through a UDP socket, the one that asked last is woken,
/// and no other; the tasks that wait to receive are not concerned.
pub proof fn udp_wakes_the_latest_sender(
    before: ReactorView,
    handle: SocketHandle,
    task1: int,
    task2: int,
)
    requires
        before.has_udp(handle),
    ensures
        ({
            let full = Err::<(), SendError>(SendError::BufferFull);
            let once = udp_socket::after_send(before, handle, full, task1);
            let twice = udp_socket::after_send(once, handle, full, task2);
            &&& once.udp_at(handle).send_task == Some(task1)
            &&& twice.udp_at(handle).send_task == Some(task2)
            &&& twice.udp_at(handle).recv_task == before.udp_at(handle).recv_task
        }),
{
}

/// Of several tasks that wait to receive through a UDP socket, the one that asked last is woken,
/// and no other; the tasks that wait to send are not concerned.
pub proof fn udp_wakes_the_latest_receiver(
    before: ReactorView,
    handle: SocketHandle,
    task1: int,
    task2: int,
)
    requires
        before.has_udp(handle),
    ensures
        ({
            let empty = Err::<(usize, Metadata), RecvError>(RecvError::Exhausted);
            let once = udp_socket::after_recv(before, handle, empty, task1);
            let twice = udp_socket::after_recv(once, handle, empty, task2);
            &&& once.udp_at(handle).recv_task == Some(task1)
            &&& twice.udp_at(handle).recv_task == Some(task2)
            &&& twice.udp_at(handle).send_task == before.udp_at(handle).send_task
        }),
{
}

/// Of several tasks that wait to send through a raw socket, the one that asked last is woken,
/// and no other; the tasks that wait to receive are not concerned.
pub proof fn raw_wakes_the_latest_sender(
    before: ReactorView,
    handle: SocketHandle,
    data1: Seq<u8>,
    data2: Seq<u8>,
    tx_room1: Set<nat>,
    tx_room2: Set<nat>,
    task1: int,
    task2: int,
)
    requires
        before.has_raw(handle),
        !before.raw_at(handle).tx_room.contains(data1.len()),
        !tx_room1.contains(data2.len()),
    ensures
        ({
            let once = raw_socket::after_send(before, handle, data1, tx_room1, task1);
            let twice = raw_socket::after_send(once, handle, data2, tx_room2, task2);
            &&& once.raw_at(handle).send_task == Some(task1)
            &&& twice.raw_at(handle).send_task == Some(task2)
            &&& twice.raw_at(handle).recv_task == before.raw_at(handle).recv_task
        }),
{
}

/// Of several tasks that wait to receive through a raw socket, the one that asked last is woken,
/// and no other; the tasks that wait to send are not concerned.
pub proof fn raw_wakes_the_latest_receiver(
    before: ReactorView,
    handle: SocketHandle,
    task1: int,
    task2: int,
)
    requires
        before.has_raw(handle),
        before.raw_at(handle).rx.len() == 0,
    ensures
        ({
            let once = raw_socket::after_recv(before, handle, task1);
            let twice = raw_socket::after_recv(once, handle, task2);
            &&& once.raw_at(handle).recv_task == Some(task1)
            &&& twice.raw_at(handle).recv_task == Some(task2)
            &&& twice.raw_at(handle).send_task == before.raw_at(handle).send_task
        }),
{
}

/// A reader and a writer of one stream can wait at the same time: each is woken for itself.
pub proof fn reader_and_writer_wait_side_by_side(
    before: ReactorView,
    handle: SocketHandle,
    room: nat,
    data: Seq<u8>,
    reader: int,
    writer: int,
)
    requires
        before.has_tcp(handle),
        read_outcome(before.tcp_at(handle), room) is Pending,
        write_outcome(before.tcp_at(handle), data.len()) is Pending,
    ensures
        ({
            let reading = after_read(before, handle, room, reader);
            let both = after_write(reading, handle, data, writer);
            &&& write_outcome(reading.tcp_at(handle), data.len()) is Pending
            &&& read_outcome(both.tcp_at(handle), room) is Pending
            &&& both.tcp_at(handle).recv_task == Some(reader)
            &&& both.tcp_at(handle).send_task == Some(writer)
        }),
{
}

/// However many datagrams are offered to a socket, and however many the stack sends in between:
/// what was sent, followed by what still waits, is what waited at first, followed by what was
/// accepted. Nothing is lost, nothing is sent twice, and the order is kept.
pub proof fn datagrams_leave_in_order(steps: Seq<Sending>)
    requires
        steps.len() > 0,
        forall|k: int| 0 <= k < steps.len() ==> (#[trigger] steps[k]).happened(),
        forall|j: int, k: int|
            0 <= j < k < steps.len() && k == j + 1 ==> (#[trigger] steps[k]).before.tx == (
            #[trigger] steps[j]).after.tx,
    ensures
        ({
            let flows = sending_flows(steps);
            steps[0].before.tx + all_added(flows) == all_out(flows) + steps.last().after.tx
        }),
{
    let flows = sending_flows(steps);
    assert forall|k: int| 0 <= k < flows.len() implies (#[trigger] flows[k]).in_order() by {
        assert(steps[k].happened());
        steps[k].is_in_order();
    }
    assert forall|j: int, k: int| 0 <= j < k < flows.len() && k == j + 1 implies (
    #[trigger] flows[k]).before == (#[trigger] flows[j]).after by {
        assert(steps[k].before.tx == steps[j].after.tx);
    }
    flows_stay_in_order(flows);
}

/// A datagram that is accepted keeps the queue within the number and the octets that the transmit
/// buffer was made for.
pub proof fn sends_stay_within_the_buffer(
    socket: UdpView,
    datagram: Outgoing,
    tx_room: Set<nat>,
)
    requires
        socket.room_bounded(),
        socket.send_result(datagram.data.len(), datagram.target) is Ok,
    ensures
        ({
            let after = offered(socket, datagram, Ok(()), tx_room);
            &&& after.tx.len() == socket.tx.len() + 1
            &&& after.tx.len() <= socket.tx_packets
            &&& udp_layer::octets(after.tx) == udp_layer::octets(socket.tx) + datagram.data.len()
            &&& udp_layer::octets(after.tx) <= socket.tx_capacity
        }),
{
    assert(socket.tx.push(datagram).drop_last() =~= socket.tx);
}

/// A socket with as many datagrams as its transmit buffer was made for accepts none, and neither
/// does one with so many octets that a datagram would lead beyond its capacity.
pub proof fn a_full_socket_accepts_nothing(socket: UdpView, len: nat, target: IpEndpoint)
    requires
        socket.room_bounded(),
        socket.tx.len() >= socket.tx_packets || udp_layer::octets(socket.tx) + len
            > socket.tx_capacity,
    ensures
        socket.send_result(len, target) is Err,
{
}

/// Of sends that follow each other while the stack sends nothing, no more are accepted than the
/// transmit buffer has places left, and no more octets than it can hold.
pub proof fn sends_that_follow_are_bounded(steps: Seq<Sending>, packets: nat, capacity: nat)
    requires
        steps.len() > 0,
        forall|k: int|
            0 <= k < steps.len() ==> {
                let step = #[trigger] steps[k];
                &&& step.happened()
                &&& step.sent == 0
                &&& step.result() is Ok
                &&& step.before.room_bounded()
                &&& step.before.tx_packets == packets
                &&& step.before.tx_capacity == capacity
            },
        forall|j: int, k: int|
            0 <= j < k < steps.len() && k == j + 1 ==> (#[trigger] steps[k]).before.tx == (
            #[trigger] steps[j]).after.tx,
    ensures
        steps.last().after.tx.len() == steps[0].before.tx.len() + steps.len(),
        steps[0].before.tx.len() + steps.len() <= packets,
        udp_layer::octets(steps.last().after.tx) <= capacity,
    decreases steps.len(),
{
    let last = steps[steps.len() - 1];
    assert(last.happened());
    sends_stay_within_the_buffer(last.before, last.datagram, last.tx_room);
    assert(last.after.tx =~= last.queued().tx);
    if steps.len() > 1 {
        let earlier = steps.drop_last();
        assert forall|j: int, k: int| 0 <= j < k < earlier.len() && k == j + 1 implies (
        #[trigger] earlier[k]).before.tx == (#[trigger] earlier[j]).after.tx by {
            assert(steps[k].before.tx == steps[j].after.tx);
        }
        sends_that_follow_are_bounded(earlier, packets, capacity);
        assert(last.before.tx == steps[steps.len() - 2].after.tx);
    }
}

/// However often datagrams are received, and however many arrive in between: what was taken out,
/// followed by what is left, is what was there at first, followed by what arrived. None is given
/// twice, and the order is kept.
pub proof fn datagrams_come_in_order(steps: Seq<Receiving>)
    requires
        steps.len() > 0,
        forall|k: int| 0 <= k < steps.len() ==> (#[trigger] steps[k]).happened(),
        forall|j: int, k: int|
            0 <= j < k < steps.len() && k == j + 1 ==> (#[trigger] steps[k]).before.rx == (
            #[trigger] steps[j]).after.rx,
    ensures
        ({
            let flows = receiving_flows(steps);
            steps[0].before.rx + all_added(flows) == all_out(flows) + steps.last().after.rx
        }),
{
    let flows = receiving_flows(steps);
    assert forall|k: int| 0 <= k < flows.len() implies (#[trigger] flows[k]).in_order() by {
        assert(steps[k].happened());
        steps[k].is_in_order();
    }
    assert forall|j: int, k: int| 0 <= j < k < flows.len() && k == j + 1 implies (
    #[trigger] flows[k]).before == (#[trigger] flows[j]).after by {
        assert(steps[k].before.rx == steps[j].after.rx);
    }
    flows_stay_in_order(flows);
}

/// The datagram that is taken out is given whole, with the endpoint that it came from, to a
/// receiver with room for it. To one without, it is not given at all, and its buffer stays as it
/// was.
pub proof fn a_datagram_comes_whole_or_not_at_all(socket: UdpView, buf: Seq<u8>)
    requires
        socket.rx.len() > 0,
        socket.rx[0].data.len() <= usize::MAX,
    ensures
        ({
            let first = socket.rx[0];
            let n = first.data.len() as int;
            match taken(socket, buf.len()) {
                Ok((size, metadata)) => {
                    &&& n <= buf.len()
                    &&& size == n
                    &&& metadata.endpoint == first.origin.endpoint
                    &&& udp_socket::recv_into(socket, buf).take(n) == first.data
                    &&& udp_socket::recv_into(socket, buf).skip(n) == buf.skip(n)
                },
                Err(e) => {
                    &&& n > buf.len()
                    &&& e is Truncated
                    &&& udp_socket::recv_into(socket, buf) == buf
                },
            }
        }),
{
    let n = socket.rx[0].data.len() as int;
    if n <= buf.len() {
        assert(udp_socket::recv_into(socket, buf).take(n) =~= socket.rx[0].data);
        assert(udp_socket::recv_into(socket, buf).skip(n) =~= buf.skip(n));
    }
}

/// What a receiver is told of a datagram is what the stack knows of it, on every socket, also on
/// one that takes every port: whoever answers from the address that it was sent to, to the
/// address that it came from, sends to the very endpoint that it came from, and from the very
/// address and port that it was sent to.
pub proof fn an_answer_goes_the_same_way_back(
    received: Result<(usize, Metadata), RecvError>,
    size: usize,
    metadata: Metadata,
    local: SocketAddr,
    remote: SocketAddr,
)
    requires
        received == Ok::<(usize, Metadata), RecvError>((size, metadata)),
        recv_outcome(received) == Poll::Ready(
            Ok::<(usize, SocketAddr, SocketAddr), ErrorView>((size, local, remote)),
        ),
    ensures
        endpoint_of(remote) == metadata.endpoint,
        Some(local.ip_spec()) == metadata.local_address,
        Some(local.port_spec()) == metadata.local_port,
        Some(endpoint_of(local).addr) == metadata.local_address,
        Some(endpoint_of(local).port) == metadata.local_port,
{
}

/// Whoever answers a datagram through a socket that was bound to one socket address, from the
/// address that it was sent to, to the address that it came from, reaches its sender: the answer
/// goes to the endpoint that the datagram came from, from the very address that the datagram was
/// sent to, and from the port of the socket, so that the stack need not be asked.
pub proof fn an_answer_reaches_the_sender(
    bind_kind: BindKind,
    socket: UdpView,
    room: nat,
    size: usize,
    local: SocketAddr,
    remote: SocketAddr,
)
    requires
        bind_kind is Exact,
        recv_outcome(taken(socket, room)) == Poll::Ready(
            Ok::<(usize, SocketAddr, SocketAddr), ErrorView>((size, local, remote)),
        ),
    ensures
        socket.rx.len() > 0,
        endpoint_of(remote) == socket.rx[0].origin.endpoint,
        Some(local.ip_spec()) == socket.rx[0].origin.local_address,
        local.port_spec() == socket.endpoint.port,
        !asks(bind_kind, left(socket), local),
{
}

/// A raw socket, too, gives packets in the order in which they came, however often it is asked
/// and however many arrive in between.
pub proof fn packets_come_in_order(steps: Seq<RawReceiving>, handle: SocketHandle)
    requires
        steps.len() > 0,
        forall|k: int| 0 <= k < steps.len() ==> (#[trigger] steps[k]).happened(handle),
        forall|j: int, k: int|
            0 <= j < k < steps.len() && k == j + 1
                ==> (#[trigger] steps[k]).before.raw_at(handle).rx
                == (#[trigger] steps[j]).after.raw_at(handle).rx,
    ensures
        ({
            let flows = raw_receiving_flows(steps, handle);
            steps[0].before.raw_at(handle).rx + all_added(flows) == all_out(flows)
                + steps.last().after.raw_at(handle).rx
        }),
{
    let flows = raw_receiving_flows(steps, handle);
    assert forall|k: int| 0 <= k < flows.len() implies (#[trigger] flows[k]).in_order() by {
        assert(steps[k].happened(handle));
        steps[k].is_in_order(handle);
    }
    assert forall|j: int, k: int| 0 <= j < k < flows.len() && k == j + 1 implies (
    #[trigger] flows[k]).before == (#[trigger] flows[j]).after by {
        assert(steps[k].before.raw_at(handle).rx == steps[j].after.raw_at(handle).rx);
    }
    flows_stay_in_order(flows);
}

/// A raw socket, too, sends packets in the order in which they were accepted, however many are
/// offered and however many the stack sends in between.
pub proof fn packets_leave_in_order(steps: Seq<RawSending>, handle: SocketHandle)
    requires
        steps.len() > 0,
        forall|k: int| 0 <= k < steps.len() ==> (#[trigger] steps[k]).happened(handle),
        forall|j: int, k: int|
            0 <= j < k < steps.len() && k == j + 1
                ==> (#[trigger] steps[k]).before.raw_at(handle).tx
                == (#[trigger] steps[j]).after.raw_at(handle).tx,
    ensures
        ({
            let flows = raw_sending_flows(steps, handle);
            steps[0].before.raw_at(handle).tx + all_added(flows) == all_out(flows)
                + steps.last().after.raw_at(handle).tx
        }),
{
    let flows = raw_sending_flows(steps, handle);
    assert forall|k: int| 0 <= k < flows.len() implies (#[trigger] flows[k]).in_order() by {
        assert(steps[k].happened(handle));
        steps[k].is_in_order(handle);
    }
    assert forall|j: int, k: int| 0 <= j < k < flows.len() && k == j + 1 implies (
    #[trigger] flows[k]).before == (#[trigger] flows[j]).after by {
        assert(steps[k].before.raw_at(handle).tx == steps[j].after.raw_at(handle).tx);
    }
    flows_stay_in_order(flows);
}

/// A packet that is accepted keeps the queue of a raw socket within the number and the octets
/// that the transmit buffer was made for.
pub proof fn raw_sends_stay_within_the_buffer(step: RawSending, handle: SocketHandle)
    requires
        step.before.has_raw(handle),
        step.before.raw_at(handle).room_bounded(),
        step.accepted(handle),
    ensures
        ({
            let before = step.before.raw_at(handle);
            let tx = step.queued(handle).tx;
            &&& tx.len() == before.tx.len() + 1
            &&& tx.len() <= before.tx_packets
            &&& raw_layer::octets(tx) == raw_layer::octets(before.tx) + step.data.len()
            &&& raw_layer::octets(tx) <= before.tx_capacity
        }),
{
    assert(step.before.raw_at(handle).tx.push(step.data).drop_last()
        =~= step.before.raw_at(handle).tx);
}

/// A raw socket with as many packets as its transmit buffer was made for accepts none, and
/// neither does one with so many octets that a packet would lead beyond its capacity.
pub proof fn a_full_raw_socket_accepts_nothing(socket: RawView, len: nat)
    requires
        socket.room_bounded(),
        socket.tx.len() >= socket.tx_packets || raw_layer::octets(socket.tx) + len
            > socket.tx_capacity,
    ensures
        raw_socket::send_outcome(socket, len) is Pending,
{
}

/// Of sends through a raw socket that follow each other while the stack sends nothing, no more
/// are accepted than the transmit buffer has places left, and no more octets than it can hold.
pub proof fn raw_sends_that_follow_are_bounded(
    steps: Seq<RawSending>,
    handle: SocketHandle,
    packets: nat,
    capacity: nat,
)
    requires
        steps.len() > 0,
        forall|k: int|
            0 <= k < steps.len() ==> {
                let step = #[trigger] steps[k];
                &&& step.happened(handle)
                &&& step.sent == 0
                &&& step.accepted(handle)
                &&& step.before.raw_at(handle).room_bounded()
                &&& step.before.raw_at(handle).tx_packets == packets
                &&& step.before.raw_at(handle).tx_capacity == capacity
            },
        forall|j: int, k: int|
            0 <= j < k < steps.len() && k == j + 1
                ==> (#[trigger] steps[k]).before.raw_at(handle).tx
                == (#[trigger] steps[j]).after.raw_at(handle).tx,
    ensures
        steps.last().after.raw_at(handle).tx.len() == steps[0].before.raw_at(handle).tx.len()
            + steps.len(),
        steps[0].before.raw_at(handle).tx.len() + steps.len() <= packets,
        raw_layer::octets(steps.last().after.raw_at(handle).tx) <= capacity,
    decreases steps.len(),
{
    let last = steps[steps.len() - 1];
    assert(last.happened(handle));
    raw_sends_stay_within_the_buffer(last, handle);
    assert(last.after.raw_at(handle).tx =~= last.queued(handle).tx);
    if steps.len() > 1 {
        let earlier = steps.drop_last();
        assert forall|j: int, k: int| 0 <= j < k < earlier.len() && k == j + 1 implies (
        #[trigger] earlier[k]).before.raw_at(handle).tx == (#[trigger] earlier[j]).after.raw_at(
            handle,
        ).tx by {
            assert(steps[k].before.raw_at(handle).tx == steps[j].after.raw_at(handle).tx);
        }
        raw_sends_that_follow_are_bounded(earlier, handle, packets, capacity);
        assert(last.before.raw_at(handle).tx == steps[steps.len() - 2].after.raw_at(handle).tx);
    }
}

/// An attempt to read from or write to a stream that has to wait changes no data: whoever tries
/// again is told the same.
pub proof fn waiting_changes_no_data(
    before: ReactorView,
    handle: SocketHandle,
    room: nat,
    data: Seq<u8>,
    task: int,
)
    requires
        before.has_tcp(handle),
    ensures
        read_outcome(before.tcp_at(handle), room) is Pending ==> {
            let after = after_read(before, handle, room, task).tcp_at(handle);
            &&& after == before.tcp_at(handle).awaited_by_reader(task)
            &&& read_outcome(after, room) is Pending
        },
        write_outcome(before.tcp_at(handle), data.len()) is Pending ==> {
            let after = after_write(before, handle, data, task).tcp_at(handle);
            &&& after == before.tcp_at(handle).awaited_by_writer(task)
            &&& write_outcome(after, data.len()) is Pending
        },
{
}

} // verus!

//! What single calls on TCP listeners and streams do, in terms of what the stack's sockets hold.
use crate::addr::{endpoint_of, IpAddr, IpEndpoint, IpListenEndpoint, SocketAddr};
use crate::bind_kind::BindKind;
use crate::error::{Error, ErrorKind};
use crate::plain::{copied, names, others_kept, says, unspecified, untouched_tcp};
use crate::poll::Poll;
use crate::reactor::{Reactor, ReactorView};
use crate::stack::tcp_layer::{Ends, ListenError, TcpState, TcpView};
use crate::stack::waker::task;
use crate::tcp_socket::{Accepted, Incoming, TcpListener, TcpListenerView, TcpStream};
use smoltcp::iface::{Context, SocketHandle};
use std::task::Waker;
use vstd::prelude::*;

verus! {

/// A read gives the octets that were received, from the front, as many as there are and as the
/// buffer has room for; they leave the socket, the others stay, and the stack is asked to look.
/// The count told is the number of octets that went into the buffer.
pub proof fn a_read_moves_octets_to_the_buffer(
    stream: &TcpStream,
    reactor: &mut Reactor,
    waker: &Waker,
    buf: &mut [u8],
    r: Poll<Result<usize, Error>>,
)
    requires
        old(reactor)@.has_tcp(stream@.handle),
        old(reactor)@.tcp_at(stream@.handle).rx.len() > 0,
        call_ensures(TcpStream::poll_read, (stream, reactor, waker, buf), r),
    ensures
        ({
            let before = old(reactor)@.tcp_at(stream@.handle);
            let after = final(reactor)@.tcp_at(stream@.handle);
            &&& r matches Poll::Ready(Ok(n))
            &&& n <= before.rx.len()
            &&& n <= old(buf)@.len()
            &&& n == before.rx.len() || n == old(buf)@.len()
            &&& copied(before.rx.take(n as int), old(buf)@, final(buf)@)
            &&& before.rx == before.rx.take(n as int) + after.rx
            &&& after == (TcpView { rx: after.rx, ..before })
            &&& final(reactor)@.notified
            &&& final(reactor)@.has_tcp(stream@.handle)
            &&& others_kept(old(reactor)@, final(reactor)@, stream@.handle)
        }),
{
    let before = old(reactor)@.tcp_at(stream@.handle);
    let room = old(buf).len();
    assert(room == old(buf)@.len());
    let n = r->Ready_0->Ok_0 as int;
    assert(before.rx =~= before.rx.take(n) + before.rx.skip(n));
}

/// A read with nothing to read waits while the peer may still send: the connection is
/// established, or only the local half is closed. The task is noted as the reader, and nothing
/// else changes.
pub proof fn a_read_waits_for_the_peer(
    stream: &TcpStream,
    reactor: &mut Reactor,
    waker: &Waker,
    buf: &mut [u8],
    r: Poll<Result<usize, Error>>,
)
    requires
        old(reactor)@.has_tcp(stream@.handle),
        old(reactor)@.tcp_at(stream@.handle).rx.len() == 0,
        call_ensures(TcpStream::poll_read, (stream, reactor, waker, buf), r),
    ensures
        ({
            let before = old(reactor)@.tcp_at(stream@.handle);
            let after = final(reactor)@.tcp_at(stream@.handle);
            &&& r is Pending <==> {
                ||| before.state == TcpState::Established
                ||| before.state == TcpState::FinWait1
                ||| before.state == TcpState::FinWait2
            }
            &&& r is Pending ==> {
                &&& after == (TcpView { recv_task: Some(task(*waker)), ..before })
                &&& final(reactor)@.notified == old(reactor)@.notified
                &&& final(reactor)@.has_tcp(stream@.handle)
                &&& others_kept(old(reactor)@, final(reactor)@, stream@.handle)
            }
            &&& final(buf)@ == old(buf)@
        }),
{
    assert(final(buf)@ =~= old(buf)@);
}

/// Once everything received has been read and no more can come, a reader is told of the end of
/// the stream, as no octets, if the peer has closed in an orderly way, and of a reset only if it
/// has not. That is so in every state of the connection, and as often as the reader asks: nothing
/// changes.
pub proof fn a_read_tells_an_orderly_end_from_a_reset(
    stream: &TcpStream,
    reactor: &mut Reactor,
    waker: &Waker,
    buf: &mut [u8],
    r: Poll<Result<usize, Error>>,
)
    requires
        old(reactor)@.has_tcp(stream@.handle),
        old(reactor)@.tcp_at(stream@.handle).rx.len() == 0,
        old(reactor)@.tcp_at(stream@.handle).state != TcpState::Established,
        old(reactor)@.tcp_at(stream@.handle).state != TcpState::FinWait1,
        old(reactor)@.tcp_at(stream@.handle).state != TcpState::FinWait2,
        call_ensures(TcpStream::poll_read, (stream, reactor, waker, buf), r),
    ensures
        ({
            let before = old(reactor)@.tcp_at(stream@.handle);
            &&& before.fin_received ==> r == Poll::Ready(Ok::<usize, Error>(0))
            &&& !before.fin_received ==> {
                &&& r matches Poll::Ready(Err(e))
                &&& says(e, ErrorKind::ConnectionReset, "tcp stream closed"@)
            }
            &&& final(reactor)@ == old(reactor)@
            &&& final(buf)@ == old(buf)@
        }),
{
    assert(final(buf)@ =~= old(buf)@);
}

/// A write that is told of `n` octets has added exactly the first `n` octets of the data to the
/// queue: all of them, or as many as the queue had room for. Nothing else of the socket changes,
/// and the stack is asked to look.
pub proof fn a_write_queues_what_it_tells(
    stream: &TcpStream,
    reactor: &mut Reactor,
    waker: &Waker,
    data: &[u8],
    r: Poll<Result<usize, Error>>,
    n: usize,
)
    requires
        old(reactor)@.has_tcp(stream@.handle),
        call_ensures(TcpStream::poll_write, (stream, reactor, waker, data), r),
        r == Poll::Ready(Ok::<usize, Error>(n)),
    ensures
        ({
            let before = old(reactor)@.tcp_at(stream@.handle);
            let after = final(reactor)@.tcp_at(stream@.handle);
            &&& n <= data@.len()
            &&& after.tx == before.tx + data@.take(n as int)
            &&& after.tx.len() == before.tx.len() + n
            &&& n == data@.len() || after.tx.len() == before.tx_capacity
            &&& after.tx.len() <= before.tx_capacity
            &&& data@.len() > 0 ==> n > 0
            &&& after == (TcpView { tx: after.tx, ..before })
            &&& final(reactor)@.notified
            &&& final(reactor)@.has_tcp(stream@.handle)
            &&& others_kept(old(reactor)@, final(reactor)@, stream@.handle)
        }),
{
    let len = data.len();
    assert(len == data@.len());
}

/// A write is accepted exactly if the local half of the connection is open and there is room; it
/// waits exactly if the half is open and there is none; and it fails exactly if the half is not
/// open. Where it waits, the task is noted as the writer; where it fails, nothing changes.
pub proof fn a_write_depends_on_the_open_half_and_on_room(
    stream: &TcpStream,
    reactor: &mut Reactor,
    waker: &Waker,
    data: &[u8],
    r: Poll<Result<usize, Error>>,
)
    requires
        old(reactor)@.has_tcp(stream@.handle),
        call_ensures(TcpStream::poll_write, (stream, reactor, waker, data), r),
    ensures
        ({
            let before = old(reactor)@.tcp_at(stream@.handle);
            let after = final(reactor)@.tcp_at(stream@.handle);
            let open = before.state == TcpState::Established || before.state
                == TcpState::CloseWait;
            let room = before.tx.len() < before.tx_capacity;
            &&& open && room ==> (r matches Poll::Ready(result) && result is Ok)
            &&& open && !room ==> {
                &&& r is Pending
                &&& after == (TcpView { send_task: Some(task(*waker)), ..before })
                &&& final(reactor)@.notified == old(reactor)@.notified
                &&& final(reactor)@.has_tcp(stream@.handle)
                &&& others_kept(old(reactor)@, final(reactor)@, stream@.handle)
            }
            &&& !open ==> {
                &&& r matches Poll::Ready(Err(e))
                &&& e.kind == ErrorKind::BrokenPipe
                &&& e.message is None
                &&& final(reactor)@ == old(reactor)@
            }
        }),
{
}

/// A flush is over exactly if no octet waits to be sent or acknowledged. Otherwise the task is
/// noted as the writer. Nothing else changes.
pub proof fn a_flush_waits_for_an_empty_queue(
    stream: &TcpStream,
    reactor: &mut Reactor,
    waker: &Waker,
    r: Poll<Result<(), Error>>,
)
    requires
        old(reactor)@.has_tcp(stream@.handle),
        call_ensures(TcpStream::poll_flush, (stream, reactor, waker), r),
    ensures
        ({
            let before = old(reactor)@.tcp_at(stream@.handle);
            let after = final(reactor)@.tcp_at(stream@.handle);
            &&& before.tx.len() == 0 ==> {
                &&& r == Poll::Ready(Ok::<(), Error>(()))
                &&& final(reactor)@ == old(reactor)@
            }
            &&& before.tx.len() > 0 ==> {
                &&& r is Pending
                &&& after == (TcpView { send_task: Some(task(*waker)), ..before })
                &&& final(reactor)@.notified == old(reactor)@.notified
                &&& final(reactor)@.has_tcp(stream@.handle)
                &&& others_kept(old(reactor)@, final(reactor)@, stream@.handle)
            }
        }),
{
}

/// A shutdown is over at once. It closes the local half of an open connection, and no more: what
/// was received, what waits to be sent and the ends of the connection stay. The tasks that waited
/// are woken, and the stack is asked to look. Where the half is closed already, no socket changes.
pub proof fn a_shutdown_closes_the_local_half(
    stream: &TcpStream,
    reactor: &mut Reactor,
    waker: &Waker,
    r: Poll<Result<(), Error>>,
)
    requires
        old(reactor)@.has_tcp(stream@.handle),
        call_ensures(TcpStream::poll_shutdown, (stream, reactor, waker), r),
    ensures
        ({
            let before = old(reactor)@.tcp_at(stream@.handle);
            let after = final(reactor)@.tcp_at(stream@.handle);
            &&& r == Poll::Ready(Ok::<(), Error>(()))
            &&& match before.state {
                TcpState::Established => after.state == TcpState::FinWait1,
                TcpState::SynReceived => after.state == TcpState::FinWait1,
                TcpState::CloseWait => after.state == TcpState::LastAck,
                TcpState::Listen => after.state == TcpState::Closed,
                TcpState::SynSent => after.state == TcpState::Closed,
                _ => after.state == before.state,
            }
            &&& if after.state == before.state {
                after == before
            } else {
                after == (TcpView {
                    state: after.state,
                    recv_task: None,
                    send_task: None,
                    ..before
                })
            }
            &&& if before.state == TcpState::Closed || before.state == TcpState::TimeWait {
                final(reactor)@.notified == old(reactor)@.notified
            } else {
                final(reactor)@.notified
            }
            &&& final(reactor)@.has_tcp(stream@.handle)
            &&& others_kept(old(reactor)@, final(reactor)@, stream@.handle)
        }),
{
}

/// A connection is made exactly in the established state, and has failed exactly in the closed
/// state. In every other state the task waits, and is noted to be woken when the state changes.
/// Nothing else changes.
pub proof fn a_connection_is_awaited_until_it_is_made_or_fails(
    stream: &TcpStream,
    reactor: &mut Reactor,
    waker: &Waker,
    r: Poll<Result<(), Error>>,
)
    requires
        old(reactor)@.has_tcp(stream@.handle),
        call_ensures(TcpStream::poll_connected, (stream, reactor, waker), r),
    ensures
        ({
            let before = old(reactor)@.tcp_at(stream@.handle);
            let after = final(reactor)@.tcp_at(stream@.handle);
            if before.state == TcpState::Established {
                &&& r == Poll::Ready(Ok::<(), Error>(()))
                &&& final(reactor)@ == old(reactor)@
            } else if before.state == TcpState::Closed {
                &&& r matches Poll::Ready(Err(e))
                &&& says(e, ErrorKind::ConnectionAborted, "tcp connect failed"@)
                &&& final(reactor)@ == old(reactor)@
            } else {
                &&& r is Pending
                &&& after == (TcpView { send_task: Some(task(*waker)), ..before })
                &&& final(reactor)@.notified == old(reactor)@.notified
                &&& final(reactor)@.has_tcp(stream@.handle)
                &&& others_kept(old(reactor)@, final(reactor)@, stream@.handle)
            }
        }),
{
}

/// A connection is begun exactly between two ends of one version of IP, both with a port and with
/// an address that is specified. It gets a new socket, which begins to connect between the very
/// ends asked for, and the stack is asked to look. Otherwise the reason is told, and nothing
/// changes.
pub proof fn connecting_begins_between_the_ends_asked_for(
    reactor: &mut Reactor,
    cx: &mut Context,
    local: IpEndpoint,
    remote: IpEndpoint,
    r: Result<TcpStream, Error>,
)
    requires
        old(reactor)@.wf(),
        call_ensures(TcpStream::connect, (reactor, cx, local, remote), r),
    ensures
        ({
            let possible = {
                &&& local.port != 0
                &&& remote.port != 0
                &&& !unspecified(local.addr)
                &&& !unspecified(remote.addr)
                &&& local.addr is V4 <==> remote.addr is V4
            };
            if possible {
                &&& r matches Ok(stream)
                &&& {
                    let socket = final(reactor)@.tcp_at(stream@.handle);
                    &&& !old(reactor)@.sockets.contains_key(stream@.handle)
                    &&& final(reactor)@.has_tcp(stream@.handle)
                    &&& untouched_tcp(socket, TcpState::SynSent, old(reactor)@.buffer_size)
                    &&& socket.ends == Some(Ends { local, remote })
                    &&& names(stream@.local_addr, local)
                    &&& names(stream@.peer_addr, remote)
                    &&& final(reactor)@.notified
                    &&& others_kept(old(reactor)@, final(reactor)@, stream@.handle)
                }
            } else {
                &&& r matches Err(e)
                &&& says(e, ErrorKind::Other, "unaddressable destination"@)
                &&& final(reactor)@ == old(reactor)@
            }
        }),
{
}

/// A stream that connects reports the ends that were asked for: its local address names the local
/// end, and its peer address the remote one.
pub proof fn a_connecting_stream_reports_its_ends(
    reactor: &mut Reactor,
    cx: &mut Context,
    local: IpEndpoint,
    remote: IpEndpoint,
    stream: &TcpStream,
    local_addr: Result<SocketAddr, Error>,
    peer_addr: Result<SocketAddr, Error>,
)
    requires
        old(reactor)@.wf(),
        call_ensures(TcpStream::connect, (reactor, cx, local, remote), Ok(*stream)),
        call_ensures(TcpStream::local_addr, (stream,), local_addr),
        call_ensures(TcpStream::peer_addr, (stream,), peer_addr),
    ensures
        local_addr matches Ok(addr) && names(addr, local) && endpoint_of(addr) == local,
        peer_addr matches Ok(addr) && names(addr, remote) && endpoint_of(addr) == remote,
{
}

/// What one attempt to accept does to a listener and a reactor, except for the streams that it
/// hands out.
pub open spec fn accepts(
    before: TcpListenerView,
    after: TcpListenerView,
    reactor_before: ReactorView,
    reactor_after: ReactorView,
    task: int,
    r: Poll<Result<Accepted, Error>>,
) -> bool {
    let socket = reactor_before.tcp_at(before.handle);
    let size = reactor_before.buffer_size;
    &&& after.bind_kind == before.bind_kind
    &&& reactor_after.notified == reactor_before.notified
    &&& if socket.state != TcpState::Established {
        &&& r is Pending
        &&& after.handle == before.handle
        &&& reactor_after.tcp_at(before.handle) == (TcpView { send_task: Some(task), ..socket })
        &&& reactor_after.has_tcp(before.handle)
        &&& others_kept(reactor_before, reactor_after, before.handle)
    } else {
        match before.bind_kind {
            BindKind::Exact(addr) => {
                let port = match addr {
                    SocketAddr::V4(v4) => v4.port,
                    SocketAddr::V6(v6) => v6.port,
                };
                let ip = match addr {
                    SocketAddr::V4(v4) => IpAddr::V4(v4.ip),
                    SocketAddr::V6(v6) => IpAddr::V6(v6.ip),
                };
                if port == 0 {
                    &&& r matches Poll::Ready(Err(e))
                    &&& says(e, ErrorKind::Other, "unaddressable destination"@)
                    &&& after.handle == before.handle
                    &&& reactor_after == reactor_before
                } else {
                    let next = reactor_after.tcp_at(after.handle);
                    &&& r matches Poll::Ready(Ok(Accepted::Connection(stream, peer)))
                    &&& stream@.handle == before.handle
                    &&& accepted_between(socket, stream, peer)
                    &&& !reactor_before.sockets.contains_key(after.handle)
                    &&& reactor_after.has_tcp(after.handle)
                    &&& untouched_tcp(next, TcpState::Listen, size)
                    &&& next.listen_endpoint.addr == Some(ip)
                    &&& next.listen_endpoint.port == port
                    &&& next.ends is None
                    &&& others_kept(reactor_before, reactor_after, after.handle)
                }
            },
            BindKind::Wildcard(addr) => {
                &&& r matches Poll::Ready(Ok(Accepted::Relisten { handle, addr: asked }))
                &&& asked == addr
                &&& after.handle == before.handle
                &&& !reactor_before.sockets.contains_key(handle)
                &&& reactor_after.has_tcp(handle)
                &&& untouched_tcp(reactor_after.tcp_at(handle), TcpState::Closed, size)
                &&& others_kept(reactor_before, reactor_after, handle)
            },
        }
    }
}

/// A stream, and the peer told with it, that name the ends of the connection on a socket: the
/// local address the local end, the peer address and the peer told the remote end.
pub open spec fn accepted_between(socket: TcpView, stream: TcpStream, peer: SocketAddr) -> bool {
    &&& socket.ends matches Some(ends)
    &&& names(stream@.local_addr, ends.local)
    &&& names(stream@.peer_addr, ends.remote)
    &&& names(peer, ends.remote)
    &&& endpoint_of(stream@.local_addr) == ends.local
    &&& endpoint_of(stream@.peer_addr) == ends.remote
    &&& endpoint_of(peer) == ends.remote
}

/// An attempt to accept waits until a connection is established. Then a listener of one address
/// hands out the socket of the connection, untouched, as a stream that names the two ends of the
/// connection, and goes on with a new socket that listens on its address; where that is
/// impossible, the reason is told and nothing changes. A listener that takes every port first
/// asks for its next socket.
pub proof fn an_attempt_to_accept(
    listener: &mut TcpListener,
    reactor: &mut Reactor,
    waker: &Waker,
    r: Poll<Result<Accepted, Error>>,
)
    requires
        old(reactor)@.wf(),
        old(reactor)@.has_tcp(old(listener)@.handle),
        call_ensures(TcpListener::poll_accept, (listener, reactor, waker), r),
    ensures
        accepts(
            old(listener)@,
            final(listener)@,
            old(reactor)@,
            final(reactor)@,
            task(*waker),
            r,
        ),
{
}

/// The incoming connections of a listener are those that it accepts, one after the other, and do
/// not end.
pub proof fn an_attempt_at_the_next_incoming_connection(
    incoming: &mut Incoming,
    reactor: &mut Reactor,
    waker: &Waker,
    r: Poll<Option<Result<Accepted, Error>>>,
)
    requires
        old(reactor)@.wf(),
        old(reactor)@.has_tcp(old(incoming).listener()@.handle),
        call_ensures(Incoming::poll_next, (incoming, reactor, waker), r),
    ensures
        ({
            let accepted = match r {
                Poll::Ready(Some(result)) => Poll::Ready(result),
                _ => Poll::Pending,
            };
            &&& r is Pending || (r matches Poll::Ready(item) && item is Some)
            &&& accepts(
                old(incoming).listener()@,
                final(incoming).listener()@,
                old(reactor)@,
                final(reactor)@,
                task(*waker),
                accepted,
            )
        }),
{
}

/// Once it is known that the new socket listens, the stream has the socket of the connection and
/// names its two ends, the listener goes on with the new socket, and no socket changes. If it does
/// not listen, it is dropped, the reason is told, and everything else stays.
pub proof fn accepting_with_the_answer_of_the_stack(
    listener: &mut TcpListener,
    reactor: &mut Reactor,
    new_handle: SocketHandle,
    listened: Result<(), ListenError>,
    r: Result<(TcpStream, SocketAddr), Error>,
)
    requires
        old(reactor)@.has_tcp(old(listener)@.handle),
        old(reactor)@.tcp_at(old(listener)@.handle).ends is Some,
        old(reactor)@.has_tcp(new_handle),
        new_handle != old(listener)@.handle,
        call_ensures(TcpStream::accept, (listener, reactor, new_handle, listened), r),
    ensures
        final(listener)@.bind_kind == old(listener)@.bind_kind,
        match listened {
            Ok(()) => {
                &&& r matches Ok((stream, peer))
                &&& stream@.handle == old(listener)@.handle
                &&& final(listener)@.handle == new_handle
                &&& accepted_between(
                    old(reactor)@.tcp_at(old(listener)@.handle),
                    stream,
                    peer,
                )
                &&& final(reactor)@ == old(reactor)@
            },
            Err(e) => {
                &&& r matches Err(error)
                &&& match e {
                    ListenError::InvalidState => says(error, ErrorKind::Other, "invalid state"@),
                    ListenError::Unaddressable => says(
                        error,
                        ErrorKind::Other,
                        "unaddressable destination"@,
                    ),
                }
                &&& final(listener)@.handle == old(listener)@.handle
                &&& !final(reactor)@.sockets.contains_key(new_handle)
                &&& final(reactor)@.notified == old(reactor)@.notified
                &&& others_kept(old(reactor)@, final(reactor)@, new_handle)
            },
        },
{
}

/// A stream that was accepted reports the two ends of its connection: asked for its local address
/// it names the local end, asked for its peer the remote end, which is also the peer told with it.
pub proof fn an_accepted_stream_reports_its_ends(
    listener: &mut TcpListener,
    reactor: &mut Reactor,
    waker: &Waker,
    stream: &TcpStream,
    peer: SocketAddr,
    local_addr: Result<SocketAddr, Error>,
    peer_addr: Result<SocketAddr, Error>,
)
    requires
        old(reactor)@.wf(),
        old(reactor)@.has_tcp(old(listener)@.handle),
        call_ensures(
            TcpListener::poll_accept,
            (listener, reactor, waker),
            Poll::Ready(Ok(Accepted::Connection(*stream, peer))),
        ),
        call_ensures(TcpStream::local_addr, (stream,), local_addr),
        call_ensures(TcpStream::peer_addr, (stream,), peer_addr),
    ensures
        ({
            let socket = old(reactor)@.tcp_at(old(listener)@.handle);
            &&& socket.ends matches Some(ends)
            &&& local_addr matches Ok(local)
            &&& peer_addr matches Ok(remote)
            &&& names(local, ends.local)
            &&& names(remote, ends.remote)
            &&& peer == remote
        }),
{
}

/// A stream that was accepted on every port reports the two ends of its connection in the same
/// way.
pub proof fn a_stream_accepted_on_every_port_reports_its_ends(
    listener: &mut TcpListener,
    reactor: &mut Reactor,
    new_handle: SocketHandle,
    stream: &TcpStream,
    peer: SocketAddr,
    local_addr: Result<SocketAddr, Error>,
    peer_addr: Result<SocketAddr, Error>,
)
    requires
        old(reactor)@.tcp_at(old(listener)@.handle).ends is Some,
        call_ensures(
            TcpStream::accept,
            (listener, reactor, new_handle, Ok(())),
            Ok((*stream, peer)),
        ),
        call_ensures(TcpStream::local_addr, (stream,), local_addr),
        call_ensures(TcpStream::peer_addr, (stream,), peer_addr),
    ensures
        ({
            let ends = old(reactor)@.tcp_at(old(listener)@.handle).ends->0;
            &&& local_addr matches Ok(local)
            &&& peer_addr matches Ok(remote)
            &&& names(local, ends.local)
            &&& names(remote, ends.remote)
            &&& peer == remote
        }),
{
}

/// A listener begins to listen exactly on an endpoint with a port. It gets a new socket that
/// listens on that endpoint. Otherwise the reason is told, and nothing changes.
pub proof fn a_listener_listens_where_it_was_asked_to(
    reactor: &mut Reactor,
    endpoint: IpListenEndpoint,
    local_addr: SocketAddr,
    r: Result<TcpListener, Error>,
)
    requires
        old(reactor)@.wf(),
        call_ensures(TcpListener::new, (reactor, endpoint, local_addr), r),
    ensures
        if endpoint.port != 0 {
            &&& r matches Ok(listener)
            &&& {
                let socket = final(reactor)@.tcp_at(listener@.handle);
                &&& listener@.bind_kind == BindKind::Exact(local_addr)
                &&& !old(reactor)@.sockets.contains_key(listener@.handle)
                &&& final(reactor)@.has_tcp(listener@.handle)
                &&& untouched_tcp(socket, TcpState::Listen, old(reactor)@.buffer_size)
                &&& socket.listen_endpoint == endpoint
                &&& socket.ends is None
                &&& final(reactor)@.notified == old(reactor)@.notified
                &&& others_kept(old(reactor)@, final(reactor)@, listener@.handle)
            }
        } else {
            &&& r matches Err(e)
            &&& says(e, ErrorKind::Other, "unaddressable destination"@)
            &&& final(reactor)@ == old(reactor)@
        },
{
}

/// A listener of one address reports the address that it was given.
pub proof fn a_listener_reports_the_address_it_was_given(
    reactor: &mut Reactor,
    endpoint: IpListenEndpoint,
    given: SocketAddr,
    listener: &TcpListener,
    reported: Result<SocketAddr, Error>,
)
    requires
        old(reactor)@.wf(),
        call_ensures(TcpListener::new, (reactor, endpoint, given), Ok(*listener)),
        call_ensures(TcpListener::local_addr, (listener,), reported),
    ensures
        reported == Ok::<SocketAddr, Error>(given),
{
}

/// A listener that takes every port has the socket and the address that it was given, and reports
/// no single address.
pub proof fn a_listener_on_every_port_reports_no_address(
    reactor: &mut Reactor,
    handle: SocketHandle,
    given: Option<IpAddr>,
    listener: &TcpListener,
    reported: Result<SocketAddr, Error>,
)
    requires
        old(reactor)@.has_tcp(handle),
        call_ensures(TcpListener::new_any, (reactor, handle, given, Ok(())), Ok(*listener)),
        call_ensures(TcpListener::local_addr, (listener,), reported),
    ensures
        listener@.handle == handle,
        listener@.bind_kind == BindKind::Wildcard(given),
        final(reactor)@ == old(reactor)@,
        reported matches Err(e) && says(
            e,
            ErrorKind::AddrNotAvailable,
            "wildcard tcp listener does not map to a single local socket address"@,
        ),
{
}

/// Whether a listener that takes every port comes to be is for the stack to say. If it does not,
/// the socket is dropped, the reason is told, and everything else stays.
pub proof fn a_listener_on_every_port_depends_on_the_stack(
    reactor: &mut Reactor,
    handle: SocketHandle,
    given: Option<IpAddr>,
    listened: Result<(), ListenError>,
    r: Result<TcpListener, Error>,
)
    requires
        old(reactor)@.has_tcp(handle),
        call_ensures(TcpListener::new_any, (reactor, handle, given, listened), r),
    ensures
        r is Ok <==> listened is Ok,
        listened matches Err(e) ==> {
            &&& match e {
                ListenError::InvalidState => says(
                    r->Err_0,
                    ErrorKind::Other,
                    "invalid state"@,
                ),
                ListenError::Unaddressable => says(
                    r->Err_0,
                    ErrorKind::Other,
                    "unaddressable destination"@,
                ),
            }
            &&& !final(reactor)@.sockets.contains_key(handle)
            &&& final(reactor)@.notified == old(reactor)@.notified
            &&& others_kept(old(reactor)@, final(reactor)@, handle)
        },
{
}

/// A listener reports the same address after an attempt to accept as before, whatever came of it.
pub proof fn accepting_keeps_the_address(
    listener: &mut TcpListener,
    reactor: &mut Reactor,
    waker: &Waker,
    r: Poll<Result<Accepted, Error>>,
    addr: SocketAddr,
    reported: Result<SocketAddr, Error>,
)
    requires
        old(reactor)@.wf(),
        old(reactor)@.has_tcp(old(listener)@.handle),
        call_ensures(
            TcpListener::local_addr,
            (&*old(listener),),
            Ok::<SocketAddr, Error>(addr),
        ),
        call_ensures(TcpListener::poll_accept, (listener, reactor, waker), r),
        call_ensures(TcpListener::local_addr, (&*final(listener),), reported),
    ensures
        reported == Ok::<SocketAddr, Error>(addr),
{
}

/// The incoming connections come from the very listener that they were asked of, and it can be
/// had back.
pub proof fn incoming_connections_come_from_their_listener(
    listener: TcpListener,
    incoming: &mut Incoming,
    back: &mut TcpListener,
)
    requires
        call_ensures(TcpListener::incoming, (listener,), *old(incoming)),
        call_ensures(Incoming::listener_mut, (incoming,), back),
    ensures
        *old(back) == listener,
        final(incoming).listener() == *final(back),
{
}

/// A stream and a listener have the socket at the place that they tell.
pub proof fn places_are_told(
    stream: &TcpStream,
    listener: &TcpListener,
    stream_place: SocketHandle,
    listener_place: SocketHandle,
)
    requires
        call_ensures(TcpStream::handle, (stream,), stream_place),
        call_ensures(TcpListener::handle, (listener,), listener_place),
    ensures
        stream_place == stream@.handle,
        listener_place == listener@.handle,
{
}

} // verus!

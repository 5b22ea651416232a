//! TCP listeners and streams.
use crate::addr::{
    endpoint_of, ep2sa, listening_at, IpAddr, IpEndpoint, IpListenEndpoint, SocketAddr,
};
use crate::bind_kind::BindKind;
use crate::error::{map_err, viewed, Error, ErrorKind, ErrorView, Refusal};
use crate::poll::Poll;
use crate::reactor::{Reactor, ReactorView};
use crate::stack::tcp_layer;
use crate::stack::tcp_layer::{tcp_view, Ends, ListenError, RecvError, TcpState, TcpView};
use crate::stack::waker::task;
use smoltcp::iface::{Context, SocketHandle};
use std::task::Waker;
use vstd::prelude::*;

verus! {

/// A TCP stream between a local and a remote socket.
pub struct TcpStream {
    handle: SocketHandle,
    local_addr: SocketAddr,
    peer_addr: SocketAddr,
}

/// A stream as a mathematical value.
pub struct TcpStreamView {
    pub handle: SocketHandle,
    pub local_addr: SocketAddr,
    pub peer_addr: SocketAddr,
}

impl View for TcpStream {
    type V = TcpStreamView;

    closed spec fn view(&self) -> TcpStreamView {
        TcpStreamView {
            handle: self.handle,
            local_addr: self.local_addr,
            peer_addr: self.peer_addr,
        }
    }
}

/// What an attempt to see a connection made comes to.
pub open spec fn connected_outcome(socket: TcpView) -> Poll<Result<(), ErrorView>> {
    match socket.state {
        TcpState::Established => Poll::Ready(Ok(())),
        TcpState::Closed => Poll::Ready(
            Err(ErrorView::saying(ErrorKind::ConnectionAborted, "tcp connect failed"@)),
        ),
        _ => Poll::Pending,
    }
}

/// What an attempt to read into `room` octets comes to: how many octets were read, none at the
/// end of the stream.
pub open spec fn read_outcome(socket: TcpView, room: nat) -> Poll<Result<usize, ErrorView>> {
    if socket.can_recv() {
        Poll::Ready(Ok(socket.gives(room) as usize))
    } else if socket.may_recv() {
        Poll::Pending
    } else if socket.fin_received {
        Poll::Ready(Ok(0))
    } else {
        Poll::Ready(Err(ErrorView::saying(ErrorKind::ConnectionReset, "tcp stream closed"@)))
    }
}

/// The reactor after such an attempt by a task.
pub open spec fn after_read(
    before: ReactorView,
    handle: SocketHandle,
    room: nat,
    task: int,
) -> ReactorView {
    let socket = before.tcp_at(handle);
    if socket.can_recv() {
        before.with_tcp(
            handle,
            TcpView { rx: socket.rx.skip(socket.gives(room) as int), ..socket },
        ).notify()
    } else if socket.may_recv() {
        before.with_tcp(handle, socket.awaited_by_reader(task))
    } else {
        before
    }
}

/// What the reader's buffer holds after such an attempt.
pub open spec fn read_into(socket: TcpView, buf: Seq<u8>) -> Seq<u8> {
    let n = socket.gives(buf.len()) as int;
    socket.rx.take(n) + buf.skip(n)
}

/// What an attempt to write `len` octets comes to: how many of them, from the front, were taken.
pub open spec fn write_outcome(socket: TcpView, len: nat) -> Poll<Result<usize, ErrorView>> {
    if !socket.may_send() {
        Poll::Ready(Err(ErrorView::bare(ErrorKind::BrokenPipe)))
    } else if socket.can_send() {
        Poll::Ready(Ok(socket.takes(len) as usize))
    } else {
        Poll::Pending
    }
}

/// The reactor after such an attempt by a task.
pub open spec fn after_write(
    before: ReactorView,
    handle: SocketHandle,
    data: Seq<u8>,
    task: int,
) -> ReactorView {
    let socket = before.tcp_at(handle);
    if !socket.may_send() {
        before
    } else if socket.can_send() {
        before.with_tcp(
            handle,
            TcpView { tx: socket.tx + data.take(socket.takes(data.len()) as int), ..socket },
        ).notify()
    } else {
        before.with_tcp(handle, socket.awaited_by_writer(task))
    }
}

/// What an attempt to see everything sent comes to.
pub open spec fn flush_outcome(socket: TcpView) -> Poll<Result<(), ErrorView>> {
    if socket.tx.len() == 0 {
        Poll::Ready(Ok(()))
    } else {
        Poll::Pending
    }
}

/// The reactor after the local half of a stream is closed.
pub open spec fn after_shutdown(before: ReactorView, handle: SocketHandle) -> ReactorView {
    let socket = before.tcp_at(handle);
    if socket.is_open() {
        before.with_tcp(handle, socket.closed()).notify()
    } else {
        before
    }
}

impl TcpStream {
    /// Begins to connect. The connection is made once `poll_connected` says so; until then the
    /// stream neither reads nor writes.
    pub fn connect(
        reactor: &mut Reactor,
        cx: &mut Context,
        local_endpoint: IpEndpoint,
        remote_endpoint: IpEndpoint,
    ) -> (r: Result<TcpStream, Error>)
        requires
            old(reactor)@.wf(),
        ensures
            ({
                let ends = Ends { local: local_endpoint, remote: remote_endpoint };
                match old(reactor)@.fresh_tcp().connect_result(ends) {
                    Ok(()) => r matches Ok(stream) && {
                        &&& !old(reactor)@.sockets.contains_key(stream@.handle)
                        &&& stream@.local_addr == SocketAddr::of(
                            local_endpoint.addr,
                            local_endpoint.port,
                        )
                        &&& stream@.peer_addr == SocketAddr::of(
                            remote_endpoint.addr,
                            remote_endpoint.port,
                        )
                        &&& final(reactor)@ == old(reactor)@.with_tcp(
                            stream@.handle,
                            old(reactor)@.fresh_tcp().connecting(ends),
                        ).notify()
                    },
                    Err(e) => r matches Err(error) && {
                        &&& error@ == ErrorView::saying(ErrorKind::Other, e.text())
                        &&& final(reactor)@ == old(reactor)@
                    },
                }
            }),
    {
        let handle = reactor.new_tcp_socket();
        let socket = reactor.tcp_mut(handle);
        match tcp_layer::connect(socket, cx, remote_endpoint, local_endpoint) {
            Ok(()) => {},
            Err(e) => {
                reactor.release(handle);
                assert(reactor@.sockets =~= old(reactor)@.sockets);
                return Err(map_err(e));
            },
        }
        let local_addr = ep2sa(&local_endpoint);
        let peer_addr = ep2sa(&remote_endpoint);
        reactor.notify();
        Ok(TcpStream { handle, local_addr, peer_addr })
    }

    /// The local address of the stream.
    pub fn local_addr(&self) -> (r: Result<SocketAddr, Error>)
        ensures
            r == Ok::<SocketAddr, Error>(self@.local_addr),
    {
        Ok(self.local_addr)
    }

    /// The address of the peer.
    pub fn peer_addr(&self) -> (r: Result<SocketAddr, Error>)
        ensures
            r == Ok::<SocketAddr, Error>(self@.peer_addr),
    {
        Ok(self.peer_addr)
    }

    /// The place of the stream's socket.
    pub fn handle(&self) -> (r: SocketHandle)
        ensures
            r == self@.handle,
    {
        self.handle
    }

    /// Tells whether the connection is made, or has failed.
    pub fn poll_connected(&self, reactor: &mut Reactor, waker: &Waker) -> (r: Poll<
        Result<(), Error>,
    >)
        requires
            old(reactor)@.has_tcp(self@.handle),
        ensures
            r.outcome() == connected_outcome(old(reactor)@.tcp_at(self@.handle)),
            final(reactor)@ == if r is Pending {
                old(reactor)@.with_tcp(
                    self@.handle,
                    old(reactor)@.tcp_at(self@.handle).awaited_by_writer(task(*waker)),
                )
            } else {
                old(reactor)@
            },
    {
        let socket = reactor.tcp_mut(self.handle);
        match tcp_layer::state(socket) {
            TcpState::Established => {
                return Poll::Ready(Ok(()));
            },
            TcpState::Closed => {
                return Poll::Ready(
                    Err(Error::new(ErrorKind::ConnectionAborted, "tcp connect failed")),
                );
            },
            _ => {},
        }
        tcp_layer::register_send_waker(socket, waker);
        Poll::Pending
    }

    /// Reads what has been received, from the front, into the front of `buf`, and tells how many
    /// octets that were. At the end of the stream there are none.
    pub fn poll_read(&self, reactor: &mut Reactor, waker: &Waker, buf: &mut [u8]) -> (r: Poll<
        Result<usize, Error>,
    >)
        requires
            old(reactor)@.has_tcp(self@.handle),
        ensures
            r.outcome() == read_outcome(
                old(reactor)@.tcp_at(self@.handle),
                old(buf)@.len(),
            ),
            final(buf)@ == read_into(old(reactor)@.tcp_at(self@.handle), old(buf)@),
            final(reactor)@ == after_read(
                old(reactor)@,
                self@.handle,
                old(buf)@.len(),
                task(*waker),
            ),
    {
        let socket = reactor.tcp_mut(self.handle);
        if tcp_layer::can_recv(socket) {
            let read = match tcp_layer::recv_slice(socket, buf) {
                Ok(read) => read,
                Err(e) => {
                    return Poll::Ready(Err(map_err(e)));
                },
            };
            reactor.notify();
            return Poll::Ready(Ok(read));
        }
        // With nothing to read, an empty read tells a quiet connection from an ended one.
        match tcp_layer::recv_slice(socket, &mut []) {
            Ok(_) => {
                assert(tcp_view(*socket).rx =~= old(reactor)@.tcp_at(self@.handle).rx);
            },
            Err(RecvError::Finished) => {
                return Poll::Ready(Ok(0));
            },
            Err(RecvError::InvalidState) => {
                return Poll::Ready(
                    Err(Error::new(ErrorKind::ConnectionReset, "tcp stream closed")),
                );
            },
        }
        tcp_layer::register_recv_waker(socket, waker);
        Poll::Pending
    }

    /// Writes octets of `buf`, from the front, and tells how many were taken.
    pub fn poll_write(&self, reactor: &mut Reactor, waker: &Waker, buf: &[u8]) -> (r: Poll<
        Result<usize, Error>,
    >)
        requires
            old(reactor)@.has_tcp(self@.handle),
        ensures
            r.outcome() == write_outcome(old(reactor)@.tcp_at(self@.handle), buf@.len()),
            final(reactor)@ == after_write(old(reactor)@, self@.handle, buf@, task(*waker)),
    {
        let socket = reactor.tcp_mut(self.handle);
        if !tcp_layer::may_send(socket) {
            return Poll::Ready(Err(Error::bare(ErrorKind::BrokenPipe)));
        }
        if tcp_layer::can_send(socket) {
            let written = match tcp_layer::send_slice(socket, buf) {
                Ok(written) => written,
                Err(e) => {
                    return Poll::Ready(Err(map_err(e)));
                },
            };
            reactor.notify();
            return Poll::Ready(Ok(written));
        }
        tcp_layer::register_send_waker(socket, waker);
        Poll::Pending
    }

    /// Tells whether everything that was written has been sent and acknowledged.
    pub fn poll_flush(&self, reactor: &mut Reactor, waker: &Waker) -> (r: Poll<Result<(), Error>>)
        requires
            old(reactor)@.has_tcp(self@.handle),
        ensures
            r.outcome() == flush_outcome(old(reactor)@.tcp_at(self@.handle)),
            final(reactor)@ == if r is Pending {
                old(reactor)@.with_tcp(
                    self@.handle,
                    old(reactor)@.tcp_at(self@.handle).awaited_by_writer(task(*waker)),
                )
            } else {
                old(reactor)@
            },
    {
        let socket = reactor.tcp_mut(self.handle);
        if tcp_layer::send_queue(socket) == 0 {
            return Poll::Ready(Ok(()));
        }
        tcp_layer::register_send_waker(socket, waker);
        Poll::Pending
    }

    /// Closes the local half of the stream. That is over at once: what was written before is
    /// still sent, and the peer may go on sending, but nothing more can be written.
    pub fn poll_shutdown(&self, reactor: &mut Reactor, waker: &Waker) -> (r: Poll<
        Result<(), Error>,
    >)
        requires
            old(reactor)@.has_tcp(self@.handle),
        ensures
            r == Poll::Ready(Ok::<(), Error>(())),
            final(reactor)@ == after_shutdown(old(reactor)@, self@.handle),
            final(reactor)@.tcp_at(self@.handle).write_closed(),
    {
        let socket = reactor.tcp_mut(self.handle);
        if tcp_layer::is_open(socket) {
            tcp_layer::close(socket);
            reactor.notify();
        }
        // Closing is done once no more local writes are possible. The rest, down to `Closed`,
        // may take as long as the peer likes and is not waited for.
        let socket = reactor.tcp_mut(self.handle);
        if !tcp_layer::may_send(socket) || matches!(tcp_layer::state(socket), TcpState::Closed) {
            return Poll::Ready(Ok(()));
        }
        tcp_layer::register_send_waker(socket, waker);
        Poll::Pending
    }

    /// Turns the socket of a listener, on which a connection is established, into a stream. The
    /// listener goes on with the socket at `new_handle`, of which `listened` says whether it
    /// listens; if it does not, that socket is dropped and the listener stays as it is.
    pub fn accept(
        listener: &mut TcpListener,
        reactor: &mut Reactor,
        new_handle: SocketHandle,
        listened: Result<(), ListenError>,
    ) -> (r: Result<(TcpStream, SocketAddr), Error>)
        requires
            old(reactor)@.has_tcp(old(listener)@.handle),
            old(reactor)@.tcp_at(old(listener)@.handle).ends is Some,
            old(reactor)@.has_tcp(new_handle),
            new_handle != old(listener)@.handle,
        ensures
            accept_answered(
                *old(listener),
                *final(listener),
                old(reactor)@,
                final(reactor)@,
                new_handle,
                listened,
                viewed(r),
            ),
    {
        match listened {
            Ok(()) => {},
            Err(e) => {
                reactor.release(new_handle);
                return Err(map_err(e));
            },
        }
        let socket = reactor.tcp_mut(listener.handle);
        let peer_addr = ep2sa(&tcp_layer::remote_endpoint(socket).unwrap());
        let local_addr = ep2sa(&tcp_layer::local_endpoint(socket).unwrap());
        assert(reactor@ =~= old(reactor)@);
        let handle = listener.handle;
        listener.handle = new_handle;
        Ok((TcpStream { handle, local_addr, peer_addr }, peer_addr))
    }
}

/// A TCP socket server, listening for connections.
///
/// You can accept a new connection by using the `poll_accept` method.
pub struct TcpListener {
    handle: SocketHandle,
    bind_kind: BindKind,
}

/// A listener as a mathematical value.
pub struct TcpListenerView {
    pub handle: SocketHandle,
    pub bind_kind: BindKind,
}

impl View for TcpListener {
    type V = TcpListenerView;

    closed spec fn view(&self) -> TcpListenerView {
        TcpListenerView { handle: self.handle, bind_kind: self.bind_kind }
    }
}

/// What comes of a connection that is established on a listener's socket.
pub enum Accepted {
    /// A stream, and the address of the peer.
    Connection(TcpStream, SocketAddr),
    /// The listener takes every port: before there is a stream, the socket at `handle` has to
    /// listen on every port of `addr`, or of all addresses. `TcpStream::accept` then goes on.
    Relisten { handle: SocketHandle, addr: Option<IpAddr> },
}

/// Whether a stream took over the socket of a listener, with the ends of its connection, and the
/// listener went on with another.
pub open spec fn handed_over(
    before: TcpListener,
    after: TcpListener,
    new_handle: SocketHandle,
    ends: Ends,
    stream: TcpStream,
    peer: SocketAddr,
) -> bool {
    &&& stream@.handle == before@.handle
    &&& stream@.local_addr == SocketAddr::of(ends.local.addr, ends.local.port)
    &&& stream@.peer_addr == SocketAddr::of(ends.remote.addr, ends.remote.port)
    &&& peer == stream@.peer_addr
    &&& after@ == (TcpListenerView { handle: new_handle, ..before@ })
}

/// Whether a connection on a listener's socket came to a given outcome, once it was known whether
/// the socket at `new_handle` listens.
pub open spec fn accept_answered(
    before: TcpListener,
    after: TcpListener,
    reactor_before: ReactorView,
    reactor_after: ReactorView,
    new_handle: SocketHandle,
    listened: Result<(), ListenError>,
    outcome: Result<(TcpStream, SocketAddr), ErrorView>,
) -> bool {
    match listened {
        Ok(()) => {
            &&& outcome matches Ok((stream, peer))
            &&& handed_over(
                before,
                after,
                new_handle,
                reactor_before.tcp_at(before@.handle).ends->0,
                stream,
                peer,
            )
            &&& reactor_after == reactor_before
        },
        Err(e) => {
            &&& outcome == Err::<(TcpStream, SocketAddr), ErrorView>(
                ErrorView::saying(ErrorKind::Other, e.text()),
            )
            &&& after@ == before@
            &&& reactor_after == reactor_before.without(new_handle)
        },
    }
}

/// Whether one attempt of a task to accept a connection came to a given outcome.
pub open spec fn accept_attempt(
    before: TcpListener,
    after: TcpListener,
    reactor_before: ReactorView,
    reactor_after: ReactorView,
    task: int,
    outcome: Poll<Result<Accepted, ErrorView>>,
) -> bool {
    let socket = reactor_before.tcp_at(before@.handle);
    let fresh = reactor_before.fresh_tcp();
    if !(socket.state is Established) {
        &&& outcome is Pending
        &&& after@ == before@
        &&& reactor_after == reactor_before.with_tcp(before@.handle, socket.awaited_by_writer(task))
    } else {
        match before@.bind_kind {
            BindKind::Exact(addr) => match fresh.listen_result(listening_at(endpoint_of(addr))) {
                Ok(()) => {
                    &&& outcome matches Poll::Ready(Ok(Accepted::Connection(stream, peer)))
                    &&& socket.ends is Some
                    &&& handed_over(before, after, after@.handle, socket.ends->0, stream, peer)
                    &&& !reactor_before.sockets.contains_key(after@.handle)
                    &&& reactor_after == reactor_before.with_tcp(
                        after@.handle,
                        fresh.listening(listening_at(endpoint_of(addr))),
                    )
                },
                Err(e) => {
                    &&& outcome == Poll::<Result<Accepted, ErrorView>>::Ready(
                        Err(ErrorView::saying(ErrorKind::Other, e.text())),
                    )
                    &&& after@ == before@
                    &&& reactor_after == reactor_before
                },
            },
            BindKind::Wildcard(addr) => {
                &&& outcome matches Poll::Ready(Ok(Accepted::Relisten { handle, addr: asked }))
                &&& asked == addr
                &&& after@ == before@
                &&& socket.ends is Some
                &&& !reactor_before.sockets.contains_key(handle)
                &&& reactor_after == reactor_before.with_tcp(handle, fresh)
            },
        }
    }
}

impl TcpListener {
    /// Starts to listen on an endpoint. `local_addr` is the address to report, and to listen on
    /// once more after each connection.
    pub fn new(
        reactor: &mut Reactor,
        local_endpoint: IpListenEndpoint,
        local_addr: SocketAddr,
    ) -> (r: Result<TcpListener, Error>)
        requires
            old(reactor)@.wf(),
        ensures
            match old(reactor)@.fresh_tcp().listen_result(local_endpoint) {
                Ok(()) => r matches Ok(listener) && {
                    &&& listener@.bind_kind == BindKind::Exact(local_addr)
                    &&& !old(reactor)@.sockets.contains_key(listener@.handle)
                    &&& final(reactor)@ == old(reactor)@.with_tcp(
                        listener@.handle,
                        old(reactor)@.fresh_tcp().listening(local_endpoint),
                    )
                },
                Err(e) => r matches Err(error) && {
                    &&& error@ == ErrorView::saying(ErrorKind::Other, e.text())
                    &&& final(reactor)@ == old(reactor)@
                },
            },
    {
        let handle = reactor.new_tcp_socket();
        let socket = reactor.tcp_mut(handle);
        match tcp_layer::listen(socket, local_endpoint) {
            Ok(()) => {},
            Err(e) => {
                reactor.release(handle);
                assert(reactor@.sockets =~= old(reactor)@.sockets);
                return Err(map_err(e));
            },
        }
        Ok(TcpListener { handle, bind_kind: BindKind::Exact(local_addr) })
    }

    /// Makes a listener of a socket that was asked to listen on every port of one address, or of
    /// all; `listened` says whether it does. If it does not, the socket is dropped.
    pub fn new_any(
        reactor: &mut Reactor,
        handle: SocketHandle,
        local_addr: Option<IpAddr>,
        listened: Result<(), ListenError>,
    ) -> (r: Result<TcpListener, Error>)
        requires
            old(reactor)@.has_tcp(handle),
        ensures
            match listened {
                Ok(()) => r matches Ok(listener) && {
                    &&& listener@ == (TcpListenerView {
                        handle,
                        bind_kind: BindKind::Wildcard(local_addr),
                    })
                    &&& final(reactor)@ == old(reactor)@
                },
                Err(e) => r matches Err(error) && {
                    &&& error@ == ErrorView::saying(ErrorKind::Other, e.text())
                    &&& final(reactor)@ == old(reactor)@.without(handle)
                },
            },
    {
        match listened {
            Ok(()) => Ok(TcpListener { handle, bind_kind: BindKind::Wildcard(local_addr) }),
            Err(e) => {
                reactor.release(handle);
                Err(map_err(e))
            },
        }
    }

    /// Accepts a connection, if one is established. Until then the task waits.
    pub fn poll_accept(&mut self, reactor: &mut Reactor, waker: &Waker) -> (r: Poll<
        Result<Accepted, Error>,
    >)
        requires
            old(reactor)@.wf(),
            old(reactor)@.has_tcp(old(self)@.handle),
        ensures
            accept_attempt(
                *old(self),
                *final(self),
                old(reactor)@,
                final(reactor)@,
                task(*waker),
                r.outcome(),
            ),
    {
        let socket = reactor.tcp_mut(self.handle);
        match tcp_layer::state(socket) {
            TcpState::Established => {},
            _ => {
                tcp_layer::register_send_waker(socket, waker);
                return Poll::Pending;
            },
        }
        assert(reactor@ =~= old(reactor)@);
        let new_handle = reactor.new_tcp_socket();
        match self.bind_kind {
            BindKind::Exact(addr) => {
                let new_socket = reactor.tcp_mut(new_handle);
                let listened = tcp_layer::listen(new_socket, IpListenEndpoint::from(addr));
                match TcpStream::accept(self, reactor, new_handle, listened) {
                    Ok((stream, peer)) => {
                        assert(reactor@ =~= old(reactor)@.with_tcp(
                            new_handle,
                            old(reactor)@.fresh_tcp().listening(listening_at(endpoint_of(addr))),
                        ));
                        Poll::Ready(Ok(Accepted::Connection(stream, peer)))
                    },
                    Err(e) => {
                        assert(reactor@ =~= old(reactor)@);
                        Poll::Ready(Err(e))
                    },
                }
            },
            BindKind::Wildcard(addr) => Poll::Ready(
                Ok(Accepted::Relisten { handle: new_handle, addr }),
            ),
        }
    }

    /// The connections of this listener, one after the other.
    pub fn incoming(self) -> (r: Incoming)
        ensures
            r.listener() == self,
    {
        Incoming(self)
    }

    /// The address that the listener was bound to, if it is one.
    pub fn local_addr(&self) -> (r: Result<SocketAddr, Error>)
        ensures
            viewed(r) == match self@.bind_kind {
                BindKind::Exact(addr) => Ok(addr),
                BindKind::Wildcard(_) => Err(
                    ErrorView::saying(
                        ErrorKind::AddrNotAvailable,
                        "wildcard tcp listener does not map to a single local socket address"@,
                    ),
                ),
            },
    {
        match self.bind_kind {
            BindKind::Exact(addr) => Ok(addr),
            BindKind::Wildcard(_) => Err(
                Error::new(
                    ErrorKind::AddrNotAvailable,
                    "wildcard tcp listener does not map to a single local socket address",
                ),
            ),
        }
    }

    /// The place of the listener's socket.
    pub fn handle(&self) -> (r: SocketHandle)
        ensures
            r == self@.handle,
    {
        self.handle
    }
}

/// The connections of a listener, one after the other, without end.
pub struct Incoming(TcpListener);

impl Incoming {
    /// The listener that the connections come from.
    pub closed spec fn listener(&self) -> TcpListener {
        self.0
    }

    /// Accepts the next connection, if one is established. Until then the task waits.
    pub fn poll_next(&mut self, reactor: &mut Reactor, waker: &Waker) -> (r: Poll<
        Option<Result<Accepted, Error>>,
    >)
        requires
            old(reactor)@.wf(),
            old(reactor)@.has_tcp(old(self).listener()@.handle),
        ensures
            r matches Poll::Ready(item) ==> item is Some,
            accept_attempt(
                old(self).listener(),
                final(self).listener(),
                old(reactor)@,
                final(reactor)@,
                task(*waker),
                match r {
                    Poll::Ready(item) => Poll::Ready(viewed(item->0)),
                    Poll::Pending => Poll::Pending,
                },
            ),
    {
        match self.0.poll_accept(reactor, waker) {
            Poll::Ready(accepted) => Poll::Ready(Some(accepted)),
            Poll::Pending => Poll::Pending,
        }
    }

    /// The listener that the connections come from.
    pub fn listener_mut(&mut self) -> (r: &mut TcpListener)
        ensures
            *r == old(self).listener(),
            final(self).listener() == *final(r),
    {
        &mut self.0
    }
}

} // verus!

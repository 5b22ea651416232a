//! UDP sockets.
use crate::addr::{endpoint_of, ep2sa, IpAddr, IpEndpoint, IpListenEndpoint, SocketAddr};
use crate::bind_kind::BindKind;
use crate::error::{map_err, viewed, Error, ErrorKind, ErrorView, Refusal};
use crate::poll::Poll;
use crate::reactor::{Reactor, ReactorView};
use crate::stack::udp_layer;
use crate::stack::udp_layer::{BindError, Outgoing, RecvError, SendError, UdpView};
use crate::stack::waker::task;
use smoltcp::iface::SocketHandle;
use std::task::Waker;
use vstd::prelude::*;

verus! {

/// A UDP socket.
pub struct UdpSocket {
    handle: SocketHandle,
    bind_kind: BindKind,
}

/// A UDP socket as a mathematical value.
pub struct UdpSocketView {
    pub handle: SocketHandle,
    pub bind_kind: BindKind,
}

impl View for UdpSocket {
    type V = UdpSocketView;

    closed spec fn view(&self) -> UdpSocketView {
        UdpSocketView { handle: self.handle, bind_kind: self.bind_kind }
    }
}

/// Where a received datagram came from, and the address and port that it was sent to.
#[derive(Debug, Clone, Copy, PartialEq, Eq)]
pub struct Metadata {
    pub endpoint: IpEndpoint,
    pub local_address: Option<IpAddr>,
    pub local_port: Option<u16>,
}

/// What comes of an attempt to send from a given local address and port.
#[derive(Debug, PartialEq, Eq)]
pub enum SendFrom {
    /// The datagram was queued; it has so many octets.
    Queued(usize),
    /// The socket is not bound to that one port: the stack has to be asked to send from `local`
    /// to `target`. `UdpSocket::poll_sent_from` then goes on.
    Ask { local: IpEndpoint, target: IpEndpoint },
}

/// What comes of an attempt to receive.
#[derive(Debug, PartialEq, Eq)]
pub enum RecvFrom<T> {
    /// A datagram.
    Received(T),
    /// The socket takes every port: the stack has to be asked for a datagram, and for the port
    /// that it was sent to. `UdpSocket::poll_received`, or `poll_received_from`, then goes on.
    Ask,
}

/// Whether a send from the local address `local` is left to the stack: it is, unless the socket
/// was bound to one socket address and has the very port of `local`.
pub open spec fn asks(bind_kind: BindKind, socket: UdpView, local: SocketAddr) -> bool {
    bind_kind is Wildcard || socket.endpoint.port != local.port_spec()
}

/// What a send of `len` octets comes to, by what the stack made of it.
pub open spec fn send_outcome(sent: Result<(), SendError>, len: nat) -> Poll<
    Result<usize, ErrorView>,
> {
    match sent {
        Ok(()) => Poll::Ready(Ok(len as usize)),
        Err(SendError::BufferFull) => Poll::Pending,
        Err(e) => Poll::Ready(Err(ErrorView::saying(ErrorKind::Other, e.text()))),
    }
}

/// The reactor after a task has been told what its send came to.
pub open spec fn after_send(
    before: ReactorView,
    handle: SocketHandle,
    sent: Result<(), SendError>,
    task: int,
) -> ReactorView {
    match sent {
        Ok(()) => before.notify(),
        Err(SendError::BufferFull) => before.with_udp(
            handle,
            before.udp_at(handle).awaited_by_writer(task),
        ),
        Err(_) => before,
    }
}

/// A socket after a datagram was handed to it, with the room that is then left.
pub open spec fn offered(
    socket: UdpView,
    datagram: Outgoing,
    sent: Result<(), SendError>,
    tx_room: Set<nat>,
) -> UdpView {
    match sent {
        Ok(()) => UdpView { tx: socket.tx.push(datagram), tx_room, ..socket },
        Err(SendError::BufferFull) => UdpView { tx_room, ..socket },
        Err(SendError::Unaddressable) => socket,
    }
}

/// What a receive comes to, by what the stack gave: the length of the datagram, the address that
/// it was sent to, and the address that it came from.
pub open spec fn recv_outcome(received: Result<(usize, Metadata), RecvError>) -> Poll<
    Result<(usize, SocketAddr, SocketAddr), ErrorView>,
> {
    match received {
        Err(RecvError::Exhausted) => Poll::Pending,
        Err(e) => Poll::Ready(Err(ErrorView::saying(ErrorKind::Other, e.text()))),
        Ok((size, metadata)) => Poll::Ready(
            match (metadata.local_address, metadata.local_port) {
                (None, _) => Err(
                    ErrorView::saying(
                        ErrorKind::AddrNotAvailable,
                        "udp metadata missing local address"@,
                    ),
                ),
                (_, None) => Err(
                    ErrorView::saying(
                        ErrorKind::AddrNotAvailable,
                        "udp metadata missing local port"@,
                    ),
                ),
                (Some(addr), Some(port)) => Ok(
                    (
                        size,
                        SocketAddr::of(addr, port),
                        SocketAddr::of(metadata.endpoint.addr, metadata.endpoint.port),
                    ),
                ),
            },
        ),
    }
}

/// A receive without the address that the datagram was sent to.
pub open spec fn remote_only(
    outcome: Poll<Result<(usize, SocketAddr, SocketAddr), ErrorView>>,
) -> Poll<Result<(usize, SocketAddr), ErrorView>> {
    match outcome {
        Poll::Ready(Ok((size, _, remote))) => Poll::Ready(Ok((size, remote))),
        Poll::Ready(Err(e)) => Poll::Ready(Err(e)),
        Poll::Pending => Poll::Pending,
    }
}

/// The outcome of a receive that was not left to the stack.
pub open spec fn not_asked<T>(outcome: Poll<Result<T, ErrorView>>) -> Poll<
    Result<RecvFrom<T>, ErrorView>,
> {
    match outcome {
        Poll::Ready(Ok(datagram)) => Poll::Ready(Ok(RecvFrom::Received(datagram))),
        Poll::Ready(Err(e)) => Poll::Ready(Err(e)),
        Poll::Pending => Poll::Pending,
    }
}

/// The reactor after a task has been told what its receive came to.
pub open spec fn after_recv(
    before: ReactorView,
    handle: SocketHandle,
    received: Result<(usize, Metadata), RecvError>,
    task: int,
) -> ReactorView {
    match received {
        Ok(_) => before.notify(),
        Err(RecvError::Exhausted) => before.with_udp(
            handle,
            before.udp_at(handle).awaited_by_reader(task),
        ),
        Err(_) => before,
    }
}

/// The port that a socket is bound to, if it is bound.
pub open spec fn bound_port(socket: UdpView) -> Option<u16> {
    if socket.endpoint.port == 0 {
        None
    } else {
        Some(socket.endpoint.port)
    }
}

/// What a receive into `room` octets gets from a socket that is bound to one port. Such a socket
/// only receives what was sent to that port.
pub open spec fn taken(socket: UdpView, room: nat) -> Result<(usize, Metadata), RecvError> {
    match socket.recv_result(room) {
        Ok((size, origin)) => Ok(
            (
                size,
                Metadata {
                    endpoint: origin.endpoint,
                    local_address: origin.local_address,
                    local_port: bound_port(socket),
                },
            ),
        ),
        Err(e) => Err(e),
    }
}

/// A socket after such a receive: without its oldest datagram, if it had one.
pub open spec fn left(socket: UdpView) -> UdpView {
    if socket.rx.len() == 0 {
        socket
    } else {
        socket.drained()
    }
}

/// What the receiver's buffer holds after such a receive.
pub open spec fn recv_into(socket: UdpView, buf: Seq<u8>) -> Seq<u8> {
    match socket.recv_result(buf.len()) {
        Ok((size, _)) => socket.rx[0].data + buf.skip(size as int),
        Err(_) => buf,
    }
}

impl UdpSocket {
    /// Binds a socket to an endpoint. `local_addr` is the address to report.
    pub fn new(
        reactor: &mut Reactor,
        local_endpoint: IpListenEndpoint,
        local_addr: SocketAddr,
    ) -> (r: Result<UdpSocket, Error>)
        requires
            old(reactor)@.wf(),
        ensures
            match old(reactor)@.fresh_udp().bind_result(local_endpoint) {
                Ok(()) => r matches Ok(socket) && {
                    &&& socket@.bind_kind == BindKind::Exact(local_addr)
                    &&& !old(reactor)@.sockets.contains_key(socket@.handle)
                    &&& final(reactor)@ == old(reactor)@.with_udp(
                        socket@.handle,
                        old(reactor)@.fresh_udp().bound(local_endpoint),
                    )
                },
                Err(e) => r matches Err(error) && {
                    &&& error@ == ErrorView::saying(ErrorKind::Other, e.text())
                    &&& final(reactor)@ == old(reactor)@
                },
            },
    {
        let handle = reactor.new_udp_socket();
        let socket = reactor.udp_mut(handle);
        match udp_layer::bind(socket, local_endpoint) {
            Ok(()) => {},
            Err(e) => {
                reactor.release(handle);
                assert(reactor@.sockets =~= old(reactor)@.sockets);
                return Err(map_err(e));
            },
        }
        Ok(UdpSocket { handle, bind_kind: BindKind::Exact(local_addr) })
    }

    /// Makes a UDP socket of a stack's socket that was asked to take every port of one address,
    /// or of all; `bound` says whether it does. If it does not, the stack's socket is dropped.
    pub fn new_any(
        reactor: &mut Reactor,
        handle: SocketHandle,
        local_addr: Option<IpAddr>,
        bound: Result<(), BindError>,
    ) -> (r: Result<UdpSocket, Error>)
        requires
            old(reactor)@.has_udp(handle),
        ensures
            match bound {
                Ok(()) => r matches Ok(socket) && {
                    &&& socket@ == (UdpSocketView {
                        handle,
                        bind_kind: BindKind::Wildcard(local_addr),
                    })
                    &&& final(reactor)@ == old(reactor)@
                },
                Err(e) => r matches Err(error) && {
                    &&& error@ == ErrorView::saying(ErrorKind::Other, e.text())
                    &&& final(reactor)@ == old(reactor)@.without(handle)
                },
            },
    {
        match bound {
            Ok(()) => Ok(UdpSocket { handle, bind_kind: BindKind::Wildcard(local_addr) }),
            Err(e) => {
                reactor.release(handle);
                Err(map_err(e))
            },
        }
    }

    /// Sends a datagram to `target`. While there is no room for it, the task waits.
    ///
    /// Note that on multiple calls to a `poll_*` method in the send direction, only the task of
    /// the waker passed to the most recent call will be woken.
    pub fn poll_send_to(
        &self,
        reactor: &mut Reactor,
        waker: &Waker,
        buf: &[u8],
        target: SocketAddr,
    ) -> (r: Poll<Result<usize, Error>>)
        requires
            old(reactor)@.has_udp(self@.handle),
        ensures
            ({
                let socket = old(reactor)@.udp_at(self@.handle);
                let datagram = Outgoing {
                    data: buf@,
                    target: endpoint_of(target),
                    local_address: None,
                };
                let sent = socket.send_result(buf@.len(), endpoint_of(target));
                let tx_room = final(reactor)@.udp_at(self@.handle).tx_room;
                &&& r.outcome() == send_outcome(sent, buf@.len())
                &&& sent is Ok ==> socket.fits(buf@.len())
                &&& final(reactor)@.udp_at(self@.handle).room_bounded()
                &&& final(reactor)@ == after_send(
                    old(reactor)@.with_udp(
                        self@.handle,
                        offered(socket, datagram, sent, tx_room),
                    ),
                    self@.handle,
                    sent,
                    task(*waker),
                )
            }),
    {
        let socket = reactor.udp_mut(self.handle);
        let target_ip = IpEndpoint::from(target);
        let sent = udp_layer::send_slice(socket, buf, target_ip, None);
        self.poll_sent_from(reactor, waker, buf, sent)
    }

    /// Sends a datagram to `target`, from the local address and port `local`. While there is no
    /// room for it, the task waits. Where the socket takes every port, or is bound to another
    /// than that of `local`, the stack has to be asked.
    pub fn poll_send_from(
        &self,
        reactor: &mut Reactor,
        waker: &Waker,
        buf: &[u8],
        local: SocketAddr,
        target: SocketAddr,
    ) -> (r: Poll<Result<SendFrom, Error>>)
        requires
            old(reactor)@.has_udp(self@.handle),
        ensures
            ({
                let socket = old(reactor)@.udp_at(self@.handle);
                let datagram = Outgoing {
                    data: buf@,
                    target: endpoint_of(target),
                    local_address: Some(local.ip_spec()),
                };
                let sent = socket.send_result(buf@.len(), endpoint_of(target));
                let tx_room = final(reactor)@.udp_at(self@.handle).tx_room;
                if !asks(self@.bind_kind, socket, local) {
                    &&& r.outcome() == match send_outcome(sent, buf@.len()) {
                        Poll::Ready(Ok(n)) => Poll::Ready(Ok(SendFrom::Queued(n))),
                        Poll::Ready(Err(e)) => Poll::Ready(Err(e)),
                        Poll::Pending => Poll::Pending,
                    }
                    &&& sent is Ok ==> socket.fits(buf@.len())
                    &&& final(reactor)@.udp_at(self@.handle).room_bounded()
                    &&& final(reactor)@ == after_send(
                        old(reactor)@.with_udp(
                            self@.handle,
                            offered(socket, datagram, sent, tx_room),
                        ),
                        self@.handle,
                        sent,
                        task(*waker),
                    )
                } else {
                    &&& r == Poll::Ready(
                        Ok::<SendFrom, Error>(
                            SendFrom::Ask {
                                local: endpoint_of(local),
                                target: endpoint_of(target),
                            },
                        ),
                    )
                    &&& final(reactor)@ == old(reactor)@
                }
            }),
    {
        let socket = reactor.udp_mut(self.handle);
        let target_ip = IpEndpoint::from(target);
        let asked = match self.bind_kind {
            BindKind::Exact(_) => udp_layer::endpoint(socket).port != local.port(),
            BindKind::Wildcard(_) => true,
        };
        if asked {
            return Poll::Ready(
                Ok(SendFrom::Ask { local: IpEndpoint::from(local), target: target_ip }),
            );
        }
        let sent = udp_layer::send_slice(socket, buf, target_ip, Some(local.ip()));
        match self.poll_sent_from(reactor, waker, buf, sent) {
            Poll::Ready(Ok(n)) => Poll::Ready(Ok(SendFrom::Queued(n))),
            Poll::Ready(Err(e)) => Poll::Ready(Err(e)),
            Poll::Pending => Poll::Pending,
        }
    }

    /// Goes on after the stack was handed the datagram `buf`, and answered `sent`.
    pub fn poll_sent_from(
        &self,
        reactor: &mut Reactor,
        waker: &Waker,
        buf: &[u8],
        sent: Result<(), SendError>,
    ) -> (r: Poll<Result<usize, Error>>)
        requires
            old(reactor)@.has_udp(self@.handle),
        ensures
            r.outcome() == send_outcome(sent, buf@.len()),
            final(reactor)@ == after_send(old(reactor)@, self@.handle, sent, task(*waker)),
    {
        match sent {
            Ok(()) => {
                reactor.notify();
                Poll::Ready(Ok(buf.len()))
            },
            Err(SendError::BufferFull) => {
                let socket = reactor.udp_mut(self.handle);
                udp_layer::register_send_waker(socket, waker);
                Poll::Pending
            },
            Err(e) => Poll::Ready(Err(map_err(e))),
        }
    }

    /// Takes a datagram out of a socket that is bound to one port.
    fn take(&self, reactor: &mut Reactor, buf: &mut [u8]) -> (r: Result<
        (usize, Metadata),
        RecvError,
    >)
        requires
            old(reactor)@.has_udp(self@.handle),
        ensures
            ({
                let socket = old(reactor)@.udp_at(self@.handle);
                &&& r == taken(socket, old(buf)@.len())
                &&& final(buf)@ == recv_into(socket, old(buf)@)
                &&& final(reactor)@ == old(reactor)@.with_udp(self@.handle, left(socket))
            }),
    {
        let socket = reactor.udp_mut(self.handle);
        let port = udp_layer::endpoint(socket).port;
        let local_port = if port == 0 {
            None
        } else {
            Some(port)
        };
        match udp_layer::recv_slice(socket, buf) {
            Ok((size, origin)) => Ok(
                (
                    size,
                    Metadata {
                        endpoint: origin.endpoint,
                        local_address: origin.local_address,
                        local_port,
                    },
                ),
            ),
            Err(e) => Err(e),
        }
    }

    /// Receives a datagram into the front of `buf`, and tells its length and where it came from.
    /// While there is none, the task waits. Where the socket takes every port, the stack has to
    /// be asked, and `poll_received_from` goes on.
    ///
    /// Note that on multiple calls to a `poll_*` method in the recv direction, only the task of
    /// the waker passed to the most recent call will be woken.
    pub fn poll_recv_from(&self, reactor: &mut Reactor, waker: &Waker, buf: &mut [u8]) -> (r: Poll<
        Result<RecvFrom<(usize, SocketAddr)>, Error>,
    >)
        requires
            old(reactor)@.has_udp(self@.handle),
        ensures
            ({
                let socket = old(reactor)@.udp_at(self@.handle);
                let received = taken(socket, old(buf)@.len());
                if self@.bind_kind is Exact {
                    &&& r.outcome() == not_asked(remote_only(recv_outcome(received)))
                    &&& final(buf)@ == recv_into(socket, old(buf)@)
                    &&& final(reactor)@ == after_recv(
                        old(reactor)@.with_udp(self@.handle, left(socket)),
                        self@.handle,
                        received,
                        task(*waker),
                    )
                } else {
                    &&& r == Poll::Ready(Ok::<RecvFrom<(usize, SocketAddr)>, Error>(RecvFrom::Ask))
                    &&& final(buf)@ == old(buf)@
                    &&& final(reactor)@ == old(reactor)@
                }
            }),
    {
        match self.bind_kind {
            BindKind::Exact(_) => {},
            BindKind::Wildcard(_) => {
                return Poll::Ready(Ok(RecvFrom::Ask));
            },
        }
        let received = self.take(reactor, buf);
        match self.poll_received_from(reactor, waker, received) {
            Poll::Ready(Ok(datagram)) => Poll::Ready(Ok(RecvFrom::Received(datagram))),
            Poll::Ready(Err(e)) => Poll::Ready(Err(e)),
            Poll::Pending => Poll::Pending,
        }
    }

    /// Receives a datagram into the front of `buf`, and tells its length, the address that it
    /// was sent to, and the address that it came from. While there is none, the task waits. A
    /// datagram for which `buf` is too short is lost. Where the socket takes every port, the
    /// stack has to be asked, and `poll_received` goes on.
    pub fn poll_recv_from_full(
        &self,
        reactor: &mut Reactor,
        waker: &Waker,
        buf: &mut [u8],
    ) -> (r: Poll<Result<RecvFrom<(usize, SocketAddr, SocketAddr)>, Error>>)
        requires
            old(reactor)@.has_udp(self@.handle),
        ensures
            ({
                let socket = old(reactor)@.udp_at(self@.handle);
                let received = taken(socket, old(buf)@.len());
                if self@.bind_kind is Exact {
                    &&& r.outcome() == not_asked(recv_outcome(received))
                    &&& final(buf)@ == recv_into(socket, old(buf)@)
                    &&& final(reactor)@ == after_recv(
                        old(reactor)@.with_udp(self@.handle, left(socket)),
                        self@.handle,
                        received,
                        task(*waker),
                    )
                } else {
                    &&& r == Poll::Ready(
                        Ok::<RecvFrom<(usize, SocketAddr, SocketAddr)>, Error>(RecvFrom::Ask),
                    )
                    &&& final(buf)@ == old(buf)@
                    &&& final(reactor)@ == old(reactor)@
                }
            }),
    {
        match self.bind_kind {
            BindKind::Exact(_) => {},
            BindKind::Wildcard(_) => {
                return Poll::Ready(Ok(RecvFrom::Ask));
            },
        }
        let received = self.take(reactor, buf);
        match self.poll_received(reactor, waker, received) {
            Poll::Ready(Ok(datagram)) => Poll::Ready(Ok(RecvFrom::Received(datagram))),
            Poll::Ready(Err(e)) => Poll::Ready(Err(e)),
            Poll::Pending => Poll::Pending,
        }
    }

    /// Goes on as `poll_received` does, and leaves out the address that the datagram was sent
    /// to.
    pub fn poll_received_from(
        &self,
        reactor: &mut Reactor,
        waker: &Waker,
        received: Result<(usize, Metadata), RecvError>,
    ) -> (r: Poll<Result<(usize, SocketAddr), Error>>)
        requires
            old(reactor)@.has_udp(self@.handle),
        ensures
            r.outcome() == remote_only(recv_outcome(received)),
            final(reactor)@ == after_recv(old(reactor)@, self@.handle, received, task(*waker)),
    {
        match self.poll_received(reactor, waker, received) {
            Poll::Ready(Ok((size, _, remote))) => Poll::Ready(Ok((size, remote))),
            Poll::Ready(Err(e)) => Poll::Ready(Err(e)),
            Poll::Pending => Poll::Pending,
        }
    }

    /// Goes on after the stack was asked for a datagram, and answered `received`.
    pub fn poll_received(
        &self,
        reactor: &mut Reactor,
        waker: &Waker,
        received: Result<(usize, Metadata), RecvError>,
    ) -> (r: Poll<Result<(usize, SocketAddr, SocketAddr), Error>>)
        requires
            old(reactor)@.has_udp(self@.handle),
        ensures
            r.outcome() == recv_outcome(received),
            final(reactor)@ == after_recv(old(reactor)@, self@.handle, received, task(*waker)),
    {
        let (size, metadata) = match received {
            Ok(received) => received,
            Err(RecvError::Exhausted) => {
                let socket = reactor.udp_mut(self.handle);
                udp_layer::register_recv_waker(socket, waker);
                return Poll::Pending;
            },
            Err(e) => {
                return Poll::Ready(Err(map_err(e)));
            },
        };
        reactor.notify();
        let local_ip = match metadata.local_address {
            Some(local_ip) => local_ip,
            None => {
                return Poll::Ready(
                    Err(
                        Error::new(
                            ErrorKind::AddrNotAvailable,
                            "udp metadata missing local address",
                        ),
                    ),
                );
            },
        };
        let local_port = match metadata.local_port {
            Some(local_port) => local_port,
            None => {
                return Poll::Ready(
                    Err(Error::new(ErrorKind::AddrNotAvailable, "udp metadata missing local port")),
                );
            },
        };
        let local = ep2sa(&IpEndpoint { addr: local_ip, port: local_port });
        Poll::Ready(Ok((size, local, ep2sa(&metadata.endpoint))))
    }

    /// The address that the socket was bound to, if it is one.
    pub fn local_addr(&self) -> (r: Result<SocketAddr, Error>)
        ensures
            viewed(r) == match self@.bind_kind {
                BindKind::Exact(addr) => Ok(addr),
                BindKind::Wildcard(_) => Err(
                    ErrorView::saying(
                        ErrorKind::AddrNotAvailable,
                        "wildcard udp socket does not map to a single local socket address"@,
                    ),
                ),
            },
    {
        match self.bind_kind {
            BindKind::Exact(addr) => Ok(addr),
            BindKind::Wildcard(_) => Err(
                Error::new(
                    ErrorKind::AddrNotAvailable,
                    "wildcard udp socket does not map to a single local socket address",
                ),
            ),
        }
    }

    /// The place of the stack's socket.
    pub fn handle(&self) -> (r: SocketHandle)
        ensures
            r == self@.handle,
    {
        self.handle
    }
}

} // verus!

//! What single calls on UDP sockets do, in terms of what the stack's sockets hold.
use crate::addr::{IpAddr, IpEndpoint, IpListenEndpoint, SocketAddr};
use crate::bind_kind::BindKind;
use crate::error::{Error, ErrorKind};
use crate::plain::{copied, names, others_kept, points_to, says, unspecified, untouched_udp};
use crate::poll::Poll;
use crate::reactor::{Reactor, ReactorView};
use crate::stack::udp_layer::{BindError, RecvError, SendError, UdpView};
use crate::stack::waker::task;
use crate::udp_socket::{Metadata, RecvFrom, SendFrom, UdpSocket};
use smoltcp::iface::SocketHandle;
use std::task::Waker;
use vstd::prelude::*;

verus! {

/// A socket is bound exactly to an endpoint with a port. It gets a new socket of the stack, bound
/// to that endpoint. Otherwise the reason is told, and nothing changes.
pub proof fn a_socket_is_bound_where_it_was_asked_to(
    reactor: &mut Reactor,
    endpoint: IpListenEndpoint,
    local_addr: SocketAddr,
    r: Result<UdpSocket, Error>,
)
    requires
        old(reactor)@.wf(),
        call_ensures(UdpSocket::new, (reactor, endpoint, local_addr), r),
    ensures
        if endpoint.port != 0 {
            &&& r matches Ok(socket)
            &&& {
                let inner = final(reactor)@.udp_at(socket@.handle);
                &&& socket@.bind_kind == BindKind::Exact(local_addr)
                &&& !old(reactor)@.sockets.contains_key(socket@.handle)
                &&& final(reactor)@.has_udp(socket@.handle)
                &&& untouched_udp(inner, old(reactor)@.buffer_size)
                &&& inner.endpoint == endpoint
                &&& final(reactor)@.notified == old(reactor)@.notified
                &&& others_kept(old(reactor)@, final(reactor)@, socket@.handle)
            }
        } else {
            &&& r matches Err(e)
            &&& says(e, ErrorKind::Other, "unaddressable"@)
            &&& final(reactor)@ == old(reactor)@
        },
{
}

/// A socket of one address reports the address that it was given.
pub proof fn a_socket_reports_the_address_it_was_given(
    reactor: &mut Reactor,
    endpoint: IpListenEndpoint,
    given: SocketAddr,
    socket: &UdpSocket,
    reported: Result<SocketAddr, Error>,
)
    requires
        old(reactor)@.wf(),
        call_ensures(UdpSocket::new, (reactor, endpoint, given), Ok(*socket)),
        call_ensures(UdpSocket::local_addr, (socket,), reported),
    ensures
        reported == Ok::<SocketAddr, Error>(given),
{
}

/// A socket that takes every port has the stack's socket and the address that it was given, and
/// reports no single address.
pub proof fn a_socket_on_every_port_reports_no_address(
    reactor: &mut Reactor,
    handle: SocketHandle,
    given: Option<IpAddr>,
    socket: &UdpSocket,
    reported: Result<SocketAddr, Error>,
)
    requires
        old(reactor)@.has_udp(handle),
        call_ensures(UdpSocket::new_any, (reactor, handle, given, Ok(())), Ok(*socket)),
        call_ensures(UdpSocket::local_addr, (socket,), reported),
    ensures
        socket@.handle == handle,
        socket@.bind_kind == BindKind::Wildcard(given),
        final(reactor)@ == old(reactor)@,
        reported matches Err(e) && says(
            e,
            ErrorKind::AddrNotAvailable,
            "wildcard udp socket does not map to a single local socket address"@,
        ),
{
}

/// Whether a socket that takes every port comes to be is for the stack to say. If it does not,
/// the stack's socket is dropped, the reason is told, and everything else stays.
pub proof fn a_socket_on_every_port_depends_on_the_stack(
    reactor: &mut Reactor,
    handle: SocketHandle,
    given: Option<IpAddr>,
    bound: Result<(), BindError>,
    r: Result<UdpSocket, Error>,
)
    requires
        old(reactor)@.has_udp(handle),
        call_ensures(UdpSocket::new_any, (reactor, handle, given, bound), r),
    ensures
        r is Ok <==> bound is Ok,
        bound matches Err(e) ==> {
            &&& match e {
                BindError::InvalidState => says(r->Err_0, ErrorKind::Other, "invalid state"@),
                BindError::Unaddressable => says(r->Err_0, ErrorKind::Other, "unaddressable"@),
            }
            &&& !final(reactor)@.sockets.contains_key(handle)
            &&& final(reactor)@.notified == old(reactor)@.notified
            &&& others_kept(old(reactor)@, final(reactor)@, handle)
        },
{
}

/// What a send of `data` does to a reactor, and what it comes to, if it goes through the socket
/// at `handle`, to `target`, from `local_address` where one is asked for.
pub open spec fn sends(
    before: ReactorView,
    after: ReactorView,
    handle: SocketHandle,
    data: Seq<u8>,
    target: SocketAddr,
    local_address: Option<IpAddr>,
    task: int,
    r: Poll<Result<usize, Error>>,
) -> bool {
    let socket = before.udp_at(handle);
    let changed = after.udp_at(handle);
    let target_ip = match target {
        SocketAddr::V4(v4) => IpAddr::V4(v4.ip),
        SocketAddr::V6(v6) => IpAddr::V6(v6.ip),
    };
    let target_port = match target {
        SocketAddr::V4(v4) => v4.port,
        SocketAddr::V6(v6) => v6.port,
    };
    if socket.endpoint.port == 0 || unspecified(target_ip) || target_port == 0 {
        &&& r matches Poll::Ready(Err(e))
        &&& says(e, ErrorKind::Other, "unaddressable"@)
        &&& after == before
    } else if socket.tx_room.contains(data.len()) {
        &&& r matches Poll::Ready(Ok(n))
        &&& n == data.len()
        &&& changed.tx.len() == socket.tx.len() + 1
        &&& changed.tx.len() <= socket.tx_packets
        &&& data.len() <= socket.tx_capacity
        &&& changed.tx.drop_last() == socket.tx
        &&& changed.tx.last().data == data
        &&& points_to(changed.tx.last().target, target)
        &&& changed.tx.last().local_address == local_address
        &&& changed == (UdpView { tx: changed.tx, tx_room: changed.tx_room, ..socket })
        &&& after.notified
        &&& after.has_udp(handle)
        &&& others_kept(before, after, handle)
    } else {
        &&& r is Pending
        &&& changed == (UdpView { tx_room: changed.tx_room, send_task: Some(task), ..socket })
        &&& after.notified == before.notified
        &&& after.has_udp(handle)
        &&& others_kept(before, after, handle)
    }
}

/// A datagram is queued whole, behind the others, for the very address and port asked for, and
/// the sender is told its length, if there is room. If not, the sender waits. It is refused, and
/// nothing changes, if the socket is not bound or the target is nowhere.
pub proof fn a_datagram_is_queued_for_its_target(
    socket: &UdpSocket,
    reactor: &mut Reactor,
    waker: &Waker,
    buf: &[u8],
    target: SocketAddr,
    r: Poll<Result<usize, Error>>,
)
    requires
        old(reactor)@.has_udp(socket@.handle),
        call_ensures(UdpSocket::poll_send_to, (socket, reactor, waker, buf, target), r),
    ensures
        sends(
            old(reactor)@,
            final(reactor)@,
            socket@.handle,
            buf@,
            target,
            None,
            task(*waker),
            r,
        ),
{
    let len = buf.len();
    assert(len == buf@.len());
    let before = old(reactor)@.udp_at(socket@.handle);
    let after = final(reactor)@.udp_at(socket@.handle);
    if after.tx.len() == before.tx.len() + 1 {
        assert(after.tx.drop_last() =~= before.tx);
    }
    assert(old(reactor)@.with_udp(socket@.handle, before) =~= old(reactor)@);
}

/// A datagram that is sent from an address with the port of the socket is queued in the same way,
/// to be sent from that address. For another port, or on a socket that takes every port, the stack
/// is to be asked to send from the very address and port to the very target, and nothing changes.
pub proof fn a_datagram_is_queued_for_its_target_from_an_address(
    socket: &UdpSocket,
    reactor: &mut Reactor,
    waker: &Waker,
    buf: &[u8],
    local: SocketAddr,
    target: SocketAddr,
    r: Poll<Result<SendFrom, Error>>,
)
    requires
        old(reactor)@.has_udp(socket@.handle),
        call_ensures(UdpSocket::poll_send_from, (socket, reactor, waker, buf, local, target), r),
    ensures
        ({
            let before = old(reactor)@.udp_at(socket@.handle);
            let local_ip = match local {
                SocketAddr::V4(v4) => IpAddr::V4(v4.ip),
                SocketAddr::V6(v6) => IpAddr::V6(v6.ip),
            };
            let local_port = match local {
                SocketAddr::V4(v4) => v4.port,
                SocketAddr::V6(v6) => v6.port,
            };
            if socket@.bind_kind is Exact && before.endpoint.port == local_port {
                let sent = match r {
                    Poll::Ready(Ok(SendFrom::Queued(n))) => Poll::Ready(Ok(n)),
                    Poll::Ready(Err(e)) => Poll::Ready(Err(e)),
                    _ => Poll::Pending,
                };
                &&& !(r matches Poll::Ready(Ok(SendFrom::Ask { local: _, target: _ })))
                &&& sends(
                    old(reactor)@,
                    final(reactor)@,
                    socket@.handle,
                    buf@,
                    target,
                    Some(local_ip),
                    task(*waker),
                    sent,
                )
            } else {
                &&& r matches Poll::Ready(Ok(SendFrom::Ask { local: from, target: to }))
                &&& points_to(from, local)
                &&& points_to(to, target)
                &&& final(reactor)@ == old(reactor)@
            }
        }),
{
    let len = buf.len();
    assert(len == buf@.len());
    let before = old(reactor)@.udp_at(socket@.handle);
    let after = final(reactor)@.udp_at(socket@.handle);
    if after.tx.len() == before.tx.len() + 1 {
        assert(after.tx.drop_last() =~= before.tx);
    }
    assert(old(reactor)@.with_udp(socket@.handle, before) =~= old(reactor)@);
}

/// The answer of the stack to a send is passed on: the length of the datagram if it was queued,
/// and then the stack is asked to look; a wait if there was no room, and then the task is noted as
/// the sender; the reason if it was refused. Nothing else changes.
pub proof fn the_answer_to_a_send_is_passed_on(
    socket: &UdpSocket,
    reactor: &mut Reactor,
    waker: &Waker,
    buf: &[u8],
    sent: Result<(), SendError>,
    r: Poll<Result<usize, Error>>,
)
    requires
        old(reactor)@.has_udp(socket@.handle),
        call_ensures(UdpSocket::poll_sent_from, (socket, reactor, waker, buf, sent), r),
    ensures
        ({
            let before = old(reactor)@.udp_at(socket@.handle);
            match sent {
                Ok(()) => {
                    &&& r matches Poll::Ready(Ok(n))
                    &&& n == buf@.len()
                    &&& final(reactor)@.sockets == old(reactor)@.sockets
                    &&& final(reactor)@.notified
                    &&& others_kept(old(reactor)@, final(reactor)@, socket@.handle)
                },
                Err(SendError::BufferFull) => {
                    &&& r is Pending
                    &&& final(reactor)@.udp_at(socket@.handle) == (UdpView {
                        send_task: Some(task(*waker)),
                        ..before
                    })
                    &&& final(reactor)@.notified == old(reactor)@.notified
                    &&& final(reactor)@.has_udp(socket@.handle)
                    &&& others_kept(old(reactor)@, final(reactor)@, socket@.handle)
                },
                Err(SendError::Unaddressable) => {
                    &&& r matches Poll::Ready(Err(e))
                    &&& says(e, ErrorKind::Other, "unaddressable"@)
                    &&& final(reactor)@ == old(reactor)@
                },
            }
        }),
{
    let len = buf.len();
    assert(len == buf@.len());
}

/// What a receive through the socket at `handle` does to a reactor and a buffer.
pub open spec fn receives(
    before: ReactorView,
    after: ReactorView,
    handle: SocketHandle,
    buf_before: Seq<u8>,
    buf_after: Seq<u8>,
    task: int,
) -> bool {
    let socket = before.udp_at(handle);
    let changed = after.udp_at(handle);
    &&& after.has_udp(handle)
    &&& others_kept(before, after, handle)
    &&& if socket.rx.len() == 0 {
        &&& changed == (UdpView { recv_task: Some(task), ..socket })
        &&& after.notified == before.notified
        &&& buf_after == buf_before
    } else {
        &&& socket.rx == seq![socket.rx[0]] + changed.rx
        &&& changed == (UdpView { rx: changed.rx, ..socket })
        &&& if buf_before.len() < socket.rx[0].data.len() {
            &&& after.notified == before.notified
            &&& buf_after == buf_before
        } else {
            &&& after.notified
            &&& copied(socket.rx[0].data, buf_before, buf_after)
        }
    }
}

/// On a socket of one address, a receive takes the oldest datagram out, into the front of the
/// buffer, and leaves the rest of the buffer and the other datagrams as they are. It succeeds on
/// every port: if the datagram fits and it is known where it was sent to, the receiver is told
/// its length, the address and port it was sent to, and those it came from. One that does not fit
/// is lost. With no datagram, the receiver waits. On a socket that takes every port, the stack is
/// to be asked, and nothing changes.
pub proof fn a_datagram_is_received_with_both_its_ends(
    socket: &UdpSocket,
    reactor: &mut Reactor,
    waker: &Waker,
    buf: &mut [u8],
    r: Poll<Result<RecvFrom<(usize, SocketAddr, SocketAddr)>, Error>>,
)
    requires
        old(reactor)@.has_udp(socket@.handle),
        call_ensures(UdpSocket::poll_recv_from_full, (socket, reactor, waker, buf), r),
    ensures
        ({
            let before = old(reactor)@.udp_at(socket@.handle);
            let first = before.rx[0];
            let port = before.endpoint.port;
            if socket@.bind_kind is Wildcard {
                &&& r == Poll::Ready(
                    Ok::<RecvFrom<(usize, SocketAddr, SocketAddr)>, Error>(RecvFrom::Ask),
                )
                &&& final(reactor)@ == old(reactor)@
                &&& final(buf)@ == old(buf)@
            } else {
                &&& receives(
                    old(reactor)@,
                    final(reactor)@,
                    socket@.handle,
                    old(buf)@,
                    final(buf)@,
                    task(*waker),
                )
                &&& if before.rx.len() == 0 {
                    r is Pending
                } else if old(buf)@.len() < first.data.len() {
                    &&& r matches Poll::Ready(Err(e))
                    &&& says(e, ErrorKind::Other, "truncated"@)
                } else if first.origin.local_address is None {
                    &&& r matches Poll::Ready(Err(e))
                    &&& says(e, ErrorKind::AddrNotAvailable, "udp metadata missing local address"@)
                } else if port == 0 {
                    &&& r matches Poll::Ready(Err(e))
                    &&& says(e, ErrorKind::AddrNotAvailable, "udp metadata missing local port"@)
                } else {
                    let to = IpEndpoint { addr: first.origin.local_address->0, port };
                    &&& r matches Poll::Ready(Ok(RecvFrom::Received((size, local, remote))))
                    &&& size == first.data.len()
                    &&& names(local, to)
                    &&& names(remote, first.origin.endpoint)
                }
            }
        }),
{
    let room = old(buf).len();
    assert(room == old(buf)@.len());
    let rx = old(reactor)@.udp_at(socket@.handle).rx;
    if rx.len() > 0 {
        assert(rx =~= seq![rx[0]] + rx.drop_first());
    }
}

/// A receive without the local address does and tells the same, except that it leaves out the
/// address that the datagram was sent to.
pub proof fn a_datagram_is_received_with_its_sender(
    socket: &UdpSocket,
    reactor: &mut Reactor,
    waker: &Waker,
    buf: &mut [u8],
    r: Poll<Result<RecvFrom<(usize, SocketAddr)>, Error>>,
)
    requires
        old(reactor)@.has_udp(socket@.handle),
        call_ensures(UdpSocket::poll_recv_from, (socket, reactor, waker, buf), r),
    ensures
        ({
            let before = old(reactor)@.udp_at(socket@.handle);
            let first = before.rx[0];
            let port = before.endpoint.port;
            if socket@.bind_kind is Wildcard {
                &&& r == Poll::Ready(Ok::<RecvFrom<(usize, SocketAddr)>, Error>(RecvFrom::Ask))
                &&& final(reactor)@ == old(reactor)@
                &&& final(buf)@ == old(buf)@
            } else {
                &&& receives(
                    old(reactor)@,
                    final(reactor)@,
                    socket@.handle,
                    old(buf)@,
                    final(buf)@,
                    task(*waker),
                )
                &&& if before.rx.len() == 0 {
                    r is Pending
                } else if old(buf)@.len() < first.data.len() {
                    &&& r matches Poll::Ready(Err(e))
                    &&& says(e, ErrorKind::Other, "truncated"@)
                } else if first.origin.local_address is None {
                    &&& r matches Poll::Ready(Err(e))
                    &&& says(e, ErrorKind::AddrNotAvailable, "udp metadata missing local address"@)
                } else if port == 0 {
                    &&& r matches Poll::Ready(Err(e))
                    &&& says(e, ErrorKind::AddrNotAvailable, "udp metadata missing local port"@)
                } else {
                    &&& r matches Poll::Ready(Ok(RecvFrom::Received((size, remote))))
                    &&& size == first.data.len()
                    &&& names(remote, first.origin.endpoint)
                }
            }
        }),
{
    let room = old(buf).len();
    assert(room == old(buf)@.len());
    let rx = old(reactor)@.udp_at(socket@.handle).rx;
    if rx.len() > 0 {
        assert(rx =~= seq![rx[0]] + rx.drop_first());
    }
}

/// What becomes of a reactor when the answer of the stack to a receive is passed on: after a
/// datagram the stack is asked to look, without one the task is noted as the receiver, and after
/// a lost one nothing changes.
pub open spec fn answered(
    before: ReactorView,
    after: ReactorView,
    handle: SocketHandle,
    received: Result<(usize, Metadata), RecvError>,
    task: int,
) -> bool {
    match received {
        Ok(_) => {
            &&& after.sockets == before.sockets
            &&& after.notified
            &&& others_kept(before, after, handle)
        },
        Err(RecvError::Exhausted) => {
            &&& after.udp_at(handle) == (UdpView { recv_task: Some(task), ..before.udp_at(handle) })
            &&& after.notified == before.notified
            &&& after.has_udp(handle)
            &&& others_kept(before, after, handle)
        },
        Err(RecvError::Truncated) => after == before,
    }
}

/// The answer of the stack to a receive is passed on: the length of the datagram, the address and
/// port that it was sent to, and those that it came from, if both are known.
pub proof fn the_answer_to_a_receive_is_passed_on(
    socket: &UdpSocket,
    reactor: &mut Reactor,
    waker: &Waker,
    received: Result<(usize, Metadata), RecvError>,
    r: Poll<Result<(usize, SocketAddr, SocketAddr), Error>>,
)
    requires
        old(reactor)@.has_udp(socket@.handle),
        call_ensures(UdpSocket::poll_received, (socket, reactor, waker, received), r),
    ensures
        answered(old(reactor)@, final(reactor)@, socket@.handle, received, task(*waker)),
        match received {
            Err(RecvError::Exhausted) => r is Pending,
            Err(RecvError::Truncated) => {
                &&& r matches Poll::Ready(Err(e))
                &&& says(e, ErrorKind::Other, "truncated"@)
            },
            Ok((n, metadata)) => if metadata.local_address is None {
                &&& r matches Poll::Ready(Err(e))
                &&& says(e, ErrorKind::AddrNotAvailable, "udp metadata missing local address"@)
            } else if metadata.local_port is None {
                &&& r matches Poll::Ready(Err(e))
                &&& says(e, ErrorKind::AddrNotAvailable, "udp metadata missing local port"@)
            } else {
                let to = IpEndpoint {
                    addr: metadata.local_address->0,
                    port: metadata.local_port->0,
                };
                &&& r matches Poll::Ready(Ok((size, local, remote)))
                &&& size == n
                &&& names(local, to)
                &&& names(remote, metadata.endpoint)
            },
        },
{
}

/// The same without the address that the datagram was sent to.
pub proof fn the_answer_to_a_receive_is_passed_on_without_the_local_address(
    socket: &UdpSocket,
    reactor: &mut Reactor,
    waker: &Waker,
    received: Result<(usize, Metadata), RecvError>,
    r: Poll<Result<(usize, SocketAddr), Error>>,
)
    requires
        old(reactor)@.has_udp(socket@.handle),
        call_ensures(UdpSocket::poll_received_from, (socket, reactor, waker, received), r),
    ensures
        answered(old(reactor)@, final(reactor)@, socket@.handle, received, task(*waker)),
        match received {
            Err(RecvError::Exhausted) => r is Pending,
            Err(RecvError::Truncated) => {
                &&& r matches Poll::Ready(Err(e))
                &&& says(e, ErrorKind::Other, "truncated"@)
            },
            Ok((n, metadata)) => if metadata.local_address is None {
                &&& r matches Poll::Ready(Err(e))
                &&& says(e, ErrorKind::AddrNotAvailable, "udp metadata missing local address"@)
            } else if metadata.local_port is None {
                &&& r matches Poll::Ready(Err(e))
                &&& says(e, ErrorKind::AddrNotAvailable, "udp metadata missing local port"@)
            } else {
                &&& r matches Poll::Ready(Ok((size, remote)))
                &&& size == n
                &&& names(remote, metadata.endpoint)
            },
        },
{
}

/// A socket has the stack's socket at the place that it tells.
pub proof fn the_place_of_a_socket_is_told(socket: &UdpSocket, place: SocketHandle)
    requires
        call_ensures(UdpSocket::handle, (socket,), place),
    ensures
        place == socket@.handle,
{
}

} // verus!

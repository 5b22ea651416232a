//! What single calls on raw sockets do, in terms of what the stack's sockets hold.
use crate::error::{Error, ErrorKind};
use crate::plain::{copied, others_kept, says, untouched_raw};
use crate::poll::Poll;
use crate::raw_socket::RawSocket;
use crate::reactor::Reactor;
use crate::stack::raw_layer::{IpVersion, RawView};
use crate::stack::waker::task;
use smoltcp::iface::SocketHandle;
use std::task::Waker;
use vstd::prelude::*;

verus! {

/// A raw socket is always made, as a new socket of the stack for the version and the protocol
/// asked for. Nothing else changes.
pub proof fn a_raw_socket_is_made_for_its_protocol(
    reactor: &mut Reactor,
    ip_version: IpVersion,
    ip_protocol: u8,
    r: Result<RawSocket, Error>,
)
    requires
        old(reactor)@.wf(),
        call_ensures(RawSocket::new, (reactor, ip_version, ip_protocol), r),
    ensures
        r matches Ok(socket) && {
            let handle = socket.handle_spec();
            &&& !old(reactor)@.sockets.contains_key(handle)
            &&& final(reactor)@.has_raw(handle)
            &&& untouched_raw(
                final(reactor)@.raw_at(handle),
                ip_version,
                ip_protocol,
                old(reactor)@.buffer_size,
            )
            &&& final(reactor)@.notified == old(reactor)@.notified
            &&& others_kept(old(reactor)@, final(reactor)@, handle)
        },
{
}

/// A packet is queued whole, octet for octet, behind the others, and the sender is told its
/// length, exactly if there is room; then the stack is asked to look. Otherwise the sender waits,
/// and nothing else changes.
pub proof fn a_packet_is_queued_whole(
    socket: &RawSocket,
    reactor: &mut Reactor,
    waker: &Waker,
    buf: &[u8],
    r: Poll<Result<usize, Error>>,
)
    requires
        old(reactor)@.has_raw(socket.handle_spec()),
        call_ensures(RawSocket::poll_send, (socket, reactor, waker, buf), r),
    ensures
        ({
            let handle = socket.handle_spec();
            let before = old(reactor)@.raw_at(handle);
            let after = final(reactor)@.raw_at(handle);
            &&& final(reactor)@.has_raw(handle)
            &&& others_kept(old(reactor)@, final(reactor)@, handle)
            &&& if before.tx_room.contains(buf@.len()) {
                &&& r matches Poll::Ready(Ok(n))
                &&& n == buf@.len()
                &&& after.tx.len() == before.tx.len() + 1
                &&& after.tx.len() <= before.tx_packets
                &&& buf@.len() <= before.tx_capacity
                &&& after.tx.drop_last() == before.tx
                &&& after.tx.last() == buf@
                &&& after == (RawView { tx: after.tx, tx_room: after.tx_room, ..before })
                &&& final(reactor)@.notified
            } else {
                &&& r is Pending
                &&& after == (RawView {
                    tx_room: after.tx_room,
                    send_task: Some(task(*waker)),
                    ..before
                })
                &&& final(reactor)@.notified == old(reactor)@.notified
            }
        }),
{
    let len = buf.len();
    assert(len == buf@.len());
    let before = old(reactor)@.raw_at(socket.handle_spec());
    let after = final(reactor)@.raw_at(socket.handle_spec());
    if after.tx.len() == before.tx.len() + 1 {
        assert(after.tx.drop_last() =~= before.tx);
    }
}

/// A receive takes the oldest packet out and puts it into the front of the buffer as it came,
/// octet for octet, header included; the receiver is told its length, and the rest of the buffer
/// and the other packets stay as they are. A packet that does not fit is lost, and the buffer
/// stays as it was. With no packet, the receiver waits. The stack is never asked to look.
pub proof fn a_packet_is_received_as_it_came(
    socket: &RawSocket,
    reactor: &mut Reactor,
    waker: &Waker,
    buf: &mut [u8],
    r: Poll<Result<usize, Error>>,
)
    requires
        old(reactor)@.has_raw(socket.handle_spec()),
        call_ensures(RawSocket::poll_recv, (socket, reactor, waker, buf), r),
    ensures
        ({
            let handle = socket.handle_spec();
            let before = old(reactor)@.raw_at(handle);
            let after = final(reactor)@.raw_at(handle);
            let first = before.rx[0];
            &&& final(reactor)@.has_raw(handle)
            &&& final(reactor)@.notified == old(reactor)@.notified
            &&& others_kept(old(reactor)@, final(reactor)@, handle)
            &&& if before.rx.len() == 0 {
                &&& r is Pending
                &&& after == (RawView { recv_task: Some(task(*waker)), ..before })
                &&& final(buf)@ == old(buf)@
            } else {
                &&& before.rx == seq![first] + after.rx
                &&& after == (RawView { rx: after.rx, ..before })
                &&& if old(buf)@.len() < first.len() {
                    &&& r matches Poll::Ready(Err(e))
                    &&& says(e, ErrorKind::Other, "truncated"@)
                    &&& final(buf)@ == old(buf)@
                } else {
                    &&& r matches Poll::Ready(Ok(size))
                    &&& size == first.len()
                    &&& copied(first, old(buf)@, final(buf)@)
                }
            }
        }),
{
    let room = old(buf).len();
    assert(room == old(buf)@.len());
    let rx = old(reactor)@.raw_at(socket.handle_spec()).rx;
    if rx.len() > 0 {
        assert(rx =~= seq![rx[0]] + rx.drop_first());
    }
}

/// A raw socket has the stack's socket at the place that it tells.
pub proof fn the_place_of_a_raw_socket_is_told(socket: &RawSocket, place: SocketHandle)
    requires
        call_ensures(RawSocket::handle, (socket,), place),
    ensures
        place == socket.handle_spec(),
{
}

} // verus!

//! What single calls on a reactor do.
use crate::plain::{others_kept, untouched_raw, untouched_tcp, untouched_udp};
use crate::reactor::{BufferSize, Reactor};
use crate::stack::raw_layer::IpVersion;
use crate::stack::socket_set::set_view;
use crate::stack::tcp_layer::TcpState;
use smoltcp::iface::{SocketHandle, SocketSet};
use vstd::prelude::*;

verus! {

/// Buffers can exist exactly if a TCP socket receives into at most 1 GiB, and every other buffer
/// fits into memory, where a packet takes a record beside its octets.
pub proof fn buffers_are_judged_by_their_sizes(size: &BufferSize, r: bool)
    requires
        call_ensures(BufferSize::is_feasible, (size,), r),
    ensures
        r <==> {
            &&& size.tcp_rx_size <= 0x4000_0000
            &&& size.tcp_tx_size <= isize::MAX
            &&& size.udp_rx_size <= isize::MAX
            &&& size.udp_tx_size <= isize::MAX
            &&& size.raw_rx_size <= isize::MAX
            &&& size.raw_tx_size <= isize::MAX
            &&& 256 * size.udp_rx_meta_size <= isize::MAX
            &&& 256 * size.udp_tx_meta_size <= isize::MAX
            &&& 256 * size.raw_rx_meta_size <= isize::MAX
            &&& 256 * size.raw_tx_meta_size <= isize::MAX
        },
{
}

/// A new reactor has no socket, the buffer sizes that it was given, and nothing to look at.
pub proof fn a_new_reactor_is_empty(size: BufferSize, r: Reactor)
    requires
        size.feasible(),
        call_ensures(Reactor::new, (size,), r),
    ensures
        forall|handle: SocketHandle| !(#[trigger] r@.sockets.contains_key(handle)),
        r@.buffer_size == size,
        r@.growable,
        !r@.notified,
        r@.wf(),
{
}

/// A new TCP socket gets a place that was free and buffers of the sizes of the reactor. It is
/// closed, and nothing else changes.
pub proof fn a_tcp_socket_is_made_at_a_free_place(reactor: &mut Reactor, r: SocketHandle)
    requires
        old(reactor)@.wf(),
        call_ensures(Reactor::new_tcp_socket, (reactor,), r),
    ensures
        !old(reactor)@.sockets.contains_key(r),
        final(reactor)@.has_tcp(r),
        untouched_tcp(
            final(reactor)@.tcp_at(r),
            TcpState::Closed,
            old(reactor)@.buffer_size,
        ),
        final(reactor)@.tcp_at(r).ends is None,
        final(reactor)@.tcp_at(r).listen_endpoint.addr is None,
        final(reactor)@.tcp_at(r).listen_endpoint.port == 0,
        final(reactor)@.notified == old(reactor)@.notified,
        others_kept(old(reactor)@, final(reactor)@, r),
{
}

/// A new UDP socket gets a place that was free and buffers of the sizes of the reactor. It is not
/// bound, and nothing else changes.
pub proof fn a_udp_socket_is_made_at_a_free_place(reactor: &mut Reactor, r: SocketHandle)
    requires
        old(reactor)@.wf(),
        call_ensures(Reactor::new_udp_socket, (reactor,), r),
    ensures
        !old(reactor)@.sockets.contains_key(r),
        final(reactor)@.has_udp(r),
        untouched_udp(final(reactor)@.udp_at(r), old(reactor)@.buffer_size),
        final(reactor)@.udp_at(r).endpoint.addr is None,
        final(reactor)@.udp_at(r).endpoint.port == 0,
        final(reactor)@.notified == old(reactor)@.notified,
        others_kept(old(reactor)@, final(reactor)@, r),
{
}

/// A new raw socket gets a place that was free and buffers of the sizes of the reactor. It is for
/// the version and the protocol asked for, and nothing else changes.
pub proof fn a_raw_socket_is_made_at_a_free_place(
    reactor: &mut Reactor,
    ip_version: IpVersion,
    ip_protocol: u8,
    r: SocketHandle,
)
    requires
        old(reactor)@.wf(),
        call_ensures(Reactor::new_raw_socket, (reactor, ip_version, ip_protocol), r),
    ensures
        !old(reactor)@.sockets.contains_key(r),
        final(reactor)@.has_raw(r),
        untouched_raw(
            final(reactor)@.raw_at(r),
            ip_version,
            ip_protocol,
            old(reactor)@.buffer_size,
        ),
        final(reactor)@.notified == old(reactor)@.notified,
        others_kept(old(reactor)@, final(reactor)@, r),
{
}

/// A socket that is released is gone, its place is free, and nothing else changes.
pub proof fn a_released_socket_is_gone(reactor: &mut Reactor, handle: SocketHandle)
    requires
        old(reactor)@.sockets.contains_key(handle),
        call_ensures(Reactor::release, (reactor, handle), ()),
    ensures
        !final(reactor)@.sockets.contains_key(handle),
        final(reactor)@.notified == old(reactor)@.notified,
        others_kept(old(reactor)@, final(reactor)@, handle),
{
}

/// The stack is handed the very sockets of the reactor, and the reactor has what it makes of them.
pub proof fn the_stack_works_on_the_sockets_of_the_reactor(
    reactor: &mut Reactor,
    set: &mut SocketSet<'static>,
)
    requires
        call_ensures(Reactor::sockets_mut, (reactor,), set),
    ensures
        set_view(*old(set)).sockets == old(reactor)@.sockets,
        set_view(*old(set)).growable == old(reactor)@.growable,
        final(reactor)@.sockets == set_view(*final(set)).sockets,
        final(reactor)@.growable == set_view(*final(set)).growable,
        final(reactor)@.buffer_size == old(reactor)@.buffer_size,
        final(reactor)@.notified == old(reactor)@.notified,
{
}

/// Whoever asks the stack to look changes no socket.
pub proof fn a_notification_changes_no_socket(reactor: &mut Reactor)
    requires
        call_ensures(Reactor::notify, (reactor,), ()),
    ensures
        final(reactor)@.notified,
        final(reactor)@.sockets == old(reactor)@.sockets,
        final(reactor)@.buffer_size == old(reactor)@.buffer_size,
        final(reactor)@.growable == old(reactor)@.growable,
{
}

/// A notification is taken once: the call tells of it, and after it there is none. No socket
/// changes.
pub proof fn a_notification_is_taken_once(reactor: &mut Reactor, r: bool)
    requires
        call_ensures(Reactor::take_notified, (reactor,), r),
    ensures
        r <==> old(reactor)@.notified,
        !final(reactor)@.notified,
        final(reactor)@.sockets == old(reactor)@.sockets,
        final(reactor)@.buffer_size == old(reactor)@.buffer_size,
        final(reactor)@.growable == old(reactor)@.growable,
{
}

} // verus!

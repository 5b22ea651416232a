//! The set that the sockets of a stack live in.
use crate::stack::raw_layer::{raw_view, RawView};
use crate::stack::tcp_layer::{tcp_view, TcpView};
use crate::stack::udp_layer::{udp_view, UdpView};
use smoltcp::iface::{SocketHandle, SocketSet};
use smoltcp::socket::{raw, tcp, udp};
use vstd::prelude::*;

verus! {

/// A set of sockets.
#[verifier::external_type_specification]
#[verifier::external_body]
pub struct ExSocketSet<'a>(smoltcp::iface::SocketSet<'a>);

/// The place of a socket in its set.
#[verifier::external_type_specification]
#[verifier::external_body]
pub struct ExSocketHandle(smoltcp::iface::SocketHandle);

/// What a socket of a set holds.
pub enum SocketView {
    Tcp(TcpView),
    Udp(UdpView),
    Raw(RawView),
    Other,
}

/// What a set of sockets holds.
pub struct SetView {
    pub sockets: Map<SocketHandle, SocketView>,
    /// Whether the set makes room for every further socket.
    pub growable: bool,
}

impl SetView {
    /// A set without sockets, that grows.
    pub open spec fn empty() -> SetView {
        SetView { sockets: Map::empty(), growable: true }
    }
}

/// What a set of sockets holds.
pub uninterp spec fn set_view(set: SocketSet<'static>) -> SetView;

/// `SocketSet::new`, on a vector: an empty set that grows.
#[verifier::external_body]
pub(crate) fn new_set() -> (r: SocketSet<'static>)
    ensures
        set_view(r) == SetView::empty(),
{
    SocketSet::new(Vec::new())
}

/// `SocketSet::add`, of a TCP socket: gives it a place that was free. It panics where the set is
/// full and does not grow.
#[verifier::external_body]
pub(crate) fn add_tcp(set: &mut SocketSet<'static>, socket: tcp::Socket<'static>) -> (r:
    SocketHandle)
    requires
        set_view(*old(set)).growable,
    ensures
        !set_view(*old(set)).sockets.contains_key(r),
        set_view(*final(set)) == (SetView {
            sockets: set_view(*old(set)).sockets.insert(r, SocketView::Tcp(tcp_view(socket))),
            ..set_view(*old(set))
        }),
{
    set.add(socket)
}

/// `SocketSet::add`, of a UDP socket: gives it a place that was free. It panics where the set is
/// full and does not grow.
#[verifier::external_body]
pub(crate) fn add_udp(set: &mut SocketSet<'static>, socket: udp::Socket<'static>) -> (r:
    SocketHandle)
    requires
        set_view(*old(set)).growable,
    ensures
        !set_view(*old(set)).sockets.contains_key(r),
        set_view(*final(set)) == (SetView {
            sockets: set_view(*old(set)).sockets.insert(r, SocketView::Udp(udp_view(socket))),
            ..set_view(*old(set))
        }),
{
    set.add(socket)
}

/// `SocketSet::add`, of a raw socket: gives it a place that was free. It panics where the set is
/// full and does not grow.
#[verifier::external_body]
pub(crate) fn add_raw(set: &mut SocketSet<'static>, socket: raw::Socket<'static>) -> (r:
    SocketHandle)
    requires
        set_view(*old(set)).growable,
    ensures
        !set_view(*old(set)).sockets.contains_key(r),
        set_view(*final(set)) == (SetView {
            sockets: set_view(*old(set)).sockets.insert(r, SocketView::Raw(raw_view(socket))),
            ..set_view(*old(set))
        }),
{
    set.add(socket)
}

/// `SocketSet::get_mut`, of a TCP socket: the socket at a place, to be changed in place. It
/// panics where there is no TCP socket.
#[verifier::external_body]
pub(crate) fn get_tcp<'a>(set: &'a mut SocketSet<'static>, handle: SocketHandle) -> (r:
    &'a mut tcp::Socket<'static>)
    requires
        set_view(*old(set)).sockets.contains_key(handle),
        set_view(*old(set)).sockets[handle] is Tcp,
    ensures
        set_view(*old(set)).sockets[handle] == SocketView::Tcp(tcp_view(*r)),
        set_view(*final(set)) == (SetView {
            sockets: set_view(*old(set)).sockets.insert(
                handle,
                SocketView::Tcp(tcp_view(*final(r))),
            ),
            ..set_view(*old(set))
        }),
{
    set.get_mut::<tcp::Socket>(handle)
}

/// `SocketSet::get_mut`, of a UDP socket: the socket at a place, to be changed in place. It
/// panics where there is no UDP socket.
#[verifier::external_body]
pub(crate) fn get_udp<'a>(set: &'a mut SocketSet<'static>, handle: SocketHandle) -> (r:
    &'a mut udp::Socket<'static>)
    requires
        set_view(*old(set)).sockets.contains_key(handle),
        set_view(*old(set)).sockets[handle] is Udp,
    ensures
        set_view(*old(set)).sockets[handle] == SocketView::Udp(udp_view(*r)),
        set_view(*final(set)) == (SetView {
            sockets: set_view(*old(set)).sockets.insert(
                handle,
                SocketView::Udp(udp_view(*final(r))),
            ),
            ..set_view(*old(set))
        }),
{
    set.get_mut::<udp::Socket>(handle)
}

/// `SocketSet::get_mut`, of a raw socket: the socket at a place, to be changed in place. It
/// panics where there is no raw socket.
#[verifier::external_body]
pub(crate) fn get_raw<'a>(set: &'a mut SocketSet<'static>, handle: SocketHandle) -> (r:
    &'a mut raw::Socket<'static>)
    requires
        set_view(*old(set)).sockets.contains_key(handle),
        set_view(*old(set)).sockets[handle] is Raw,
    ensures
        set_view(*old(set)).sockets[handle] == SocketView::Raw(raw_view(*r)),
        set_view(*final(set)) == (SetView {
            sockets: set_view(*old(set)).sockets.insert(
                handle,
                SocketView::Raw(raw_view(*final(r))),
            ),
            ..set_view(*old(set))
        }),
{
    set.get_mut::<raw::Socket>(handle)
}

/// `SocketSet::remove`: takes a socket out of the set, and drops it. It panics where there is
/// none.
#[verifier::external_body]
pub(crate) fn remove(set: &mut SocketSet<'static>, handle: SocketHandle)
    requires
        set_view(*old(set)).sockets.contains_key(handle),
    ensures
        set_view(*final(set)) == (SetView {
            sockets: set_view(*old(set)).sockets.remove(handle),
            ..set_view(*old(set))
        }),
{
    set.remove(handle);
}

} // verus!

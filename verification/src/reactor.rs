//! What the sockets of one stack share.
use crate::stack::raw_layer::{raw_view, IpVersion, RawView};
use crate::stack::socket_set::{set_view, SetView, SocketView};
use crate::stack::tcp_layer::{tcp_view, TcpView};
use crate::stack::udp_layer::{udp_view, UdpView};
use crate::stack::{raw_layer, socket_set, tcp_layer, udp_layer};
use smoltcp::iface::{SocketHandle, SocketSet};
use vstd::prelude::*;

verus! {

/// The sizes of the buffers that new sockets get: octets, and for the sockets that keep packets
/// apart, numbers of packets.
#[derive(Debug, Clone, Copy)]
pub struct BufferSize {
    pub tcp_rx_size: usize,
    pub tcp_tx_size: usize,
    pub udp_rx_size: usize,
    pub udp_tx_size: usize,
    pub udp_rx_meta_size: usize,
    pub udp_tx_meta_size: usize,
    pub raw_rx_size: usize,
    pub raw_tx_size: usize,
    pub raw_rx_meta_size: usize,
    pub raw_tx_meta_size: usize,
}

impl BufferSize {
    /// Whether such buffers can exist: a TCP socket receives into at most 1 GiB, and no buffer
    /// is larger than memory can hold.
    pub open spec fn feasible(self) -> bool {
        &&& self.tcp_rx_size <= 0x4000_0000
        &&& self.tcp_tx_size <= isize::MAX
        &&& self.udp_rx_size <= isize::MAX
        &&& self.udp_tx_size <= isize::MAX
        &&& self.udp_rx_meta_size <= isize::MAX / 256
        &&& self.udp_tx_meta_size <= isize::MAX / 256
        &&& self.raw_rx_size <= isize::MAX
        &&& self.raw_tx_size <= isize::MAX
        &&& self.raw_rx_meta_size <= isize::MAX / 256
        &&& self.raw_tx_meta_size <= isize::MAX / 256
    }

    /// Whether such buffers can exist.
    pub fn is_feasible(&self) -> (r: bool)
        ensures
            r == self.feasible(),
    {
        let most_octets = isize::MAX as usize;
        let most_packets = most_octets / 256;
        self.tcp_rx_size <= 0x4000_0000 && self.tcp_tx_size <= most_octets
            && self.udp_rx_size <= most_octets && self.udp_tx_size <= most_octets
            && self.udp_rx_meta_size <= most_packets && self.udp_tx_meta_size <= most_packets
            && self.raw_rx_size <= most_octets && self.raw_tx_size <= most_octets
            && self.raw_rx_meta_size <= most_packets && self.raw_tx_meta_size <= most_packets
    }
}

/// The sockets of a stack, and whether the stack has been asked to look at them.
pub struct Reactor {
    sockets: SocketSet<'static>,
    buffer_size: BufferSize,
    notified: bool,
}

/// A reactor as a mathematical value.
#[verifier::ext_equal]
pub struct ReactorView {
    pub sockets: Map<SocketHandle, SocketView>,
    pub growable: bool,
    pub buffer_size: BufferSize,
    pub notified: bool,
}

impl View for Reactor {
    type V = ReactorView;

    closed spec fn view(&self) -> ReactorView {
        ReactorView {
            sockets: set_view(self.sockets).sockets,
            growable: set_view(self.sockets).growable,
            buffer_size: self.buffer_size,
            notified: self.notified,
        }
    }
}

impl ReactorView {
    /// Whether the reactor can make further sockets.
    pub open spec fn wf(self) -> bool {
        self.growable && self.buffer_size.feasible()
    }

    /// Whether there is a TCP socket at a place.
    pub open spec fn has_tcp(self, handle: SocketHandle) -> bool {
        self.sockets.contains_key(handle) && self.sockets[handle] is Tcp
    }

    /// Whether there is a UDP socket at a place.
    pub open spec fn has_udp(self, handle: SocketHandle) -> bool {
        self.sockets.contains_key(handle) && self.sockets[handle] is Udp
    }

    /// Whether there is a raw socket at a place.
    pub open spec fn has_raw(self, handle: SocketHandle) -> bool {
        self.sockets.contains_key(handle) && self.sockets[handle] is Raw
    }

    /// The TCP socket at a place.
    pub open spec fn tcp_at(self, handle: SocketHandle) -> TcpView {
        self.sockets[handle]->Tcp_0
    }

    /// The UDP socket at a place.
    pub open spec fn udp_at(self, handle: SocketHandle) -> UdpView {
        self.sockets[handle]->Udp_0
    }

    /// The raw socket at a place.
    pub open spec fn raw_at(self, handle: SocketHandle) -> RawView {
        self.sockets[handle]->Raw_0
    }

    /// The reactor with a TCP socket put at a place, every other socket as it was.
    pub open spec fn with_tcp(self, handle: SocketHandle, socket: TcpView) -> ReactorView {
        ReactorView { sockets: self.sockets.insert(handle, SocketView::Tcp(socket)), ..self }
    }

    /// The reactor with a UDP socket put at a place, every other socket as it was.
    pub open spec fn with_udp(self, handle: SocketHandle, socket: UdpView) -> ReactorView {
        ReactorView { sockets: self.sockets.insert(handle, SocketView::Udp(socket)), ..self }
    }

    /// The reactor with a raw socket put at a place, every other socket as it was.
    pub open spec fn with_raw(self, handle: SocketHandle, socket: RawView) -> ReactorView {
        ReactorView { sockets: self.sockets.insert(handle, SocketView::Raw(socket)), ..self }
    }

    /// The reactor without the socket at a place, every other socket as it was.
    pub open spec fn without(self, handle: SocketHandle) -> ReactorView {
        ReactorView { sockets: self.sockets.remove(handle), ..self }
    }

    /// The reactor once the stack has been asked to look at the sockets.
    pub open spec fn notify(self) -> ReactorView {
        ReactorView { notified: true, ..self }
    }

    /// What a new TCP socket of this reactor is.
    pub open spec fn fresh_tcp(self) -> TcpView {
        TcpView::fresh(
            self.buffer_size.tcp_rx_size as nat,
            self.buffer_size.tcp_tx_size as nat,
        )
    }

    /// What a new UDP socket of this reactor is.
    pub open spec fn fresh_udp(self) -> UdpView {
        UdpView::fresh(
            self.buffer_size.udp_rx_size as nat,
            self.buffer_size.udp_rx_meta_size as nat,
            self.buffer_size.udp_tx_size as nat,
            self.buffer_size.udp_tx_meta_size as nat,
        )
    }

    /// What a new raw socket of this reactor is.
    pub open spec fn fresh_raw(self, ip_version: IpVersion, ip_protocol: u8) -> RawView {
        RawView::fresh(
            ip_version,
            ip_protocol,
            self.buffer_size.raw_rx_size as nat,
            self.buffer_size.raw_rx_meta_size as nat,
            self.buffer_size.raw_tx_size as nat,
            self.buffer_size.raw_tx_meta_size as nat,
        )
    }
}

impl Reactor {
    /// A reactor without sockets.
    pub fn new(buffer_size: BufferSize) -> (r: Reactor)
        requires
            buffer_size.feasible(),
        ensures
            r@ == (ReactorView {
                sockets: Map::empty(),
                growable: true,
                buffer_size,
                notified: false,
            }),
            r@.wf(),
    {
        Reactor { sockets: socket_set::new_set(), buffer_size, notified: false }
    }

    /// Makes a TCP socket, at a place that was free.
    pub fn new_tcp_socket(&mut self) -> (r: SocketHandle)
        requires
            old(self)@.wf(),
        ensures
            !old(self)@.sockets.contains_key(r),
            final(self)@ == old(self)@.with_tcp(r, old(self)@.fresh_tcp()),
    {
        let size = self.buffer_size;
        let socket = tcp_layer::new_socket(size.tcp_rx_size, size.tcp_tx_size);
        socket_set::add_tcp(&mut self.sockets, socket)
    }

    /// Makes a UDP socket, at a place that was free.
    pub fn new_udp_socket(&mut self) -> (r: SocketHandle)
        requires
            old(self)@.wf(),
        ensures
            !old(self)@.sockets.contains_key(r),
            final(self)@ == old(self)@.with_udp(r, old(self)@.fresh_udp()),
    {
        let size = self.buffer_size;
        let socket = udp_layer::new_socket(
            size.udp_rx_size,
            size.udp_rx_meta_size,
            size.udp_tx_size,
            size.udp_tx_meta_size,
        );
        socket_set::add_udp(&mut self.sockets, socket)
    }

    /// Makes a raw socket for one protocol, at a place that was free.
    pub fn new_raw_socket(&mut self, ip_version: IpVersion, ip_protocol: u8) -> (r: SocketHandle)
        requires
            old(self)@.wf(),
        ensures
            !old(self)@.sockets.contains_key(r),
            final(self)@ == old(self)@.with_raw(r, old(self)@.fresh_raw(ip_version, ip_protocol)),
    {
        let size = self.buffer_size;
        let socket = raw_layer::new_socket(
            ip_version,
            ip_protocol,
            size.raw_rx_size,
            size.raw_rx_meta_size,
            size.raw_tx_size,
            size.raw_tx_meta_size,
        );
        socket_set::add_raw(&mut self.sockets, socket)
    }

    /// Drops a socket, and frees its place.
    pub fn release(&mut self, handle: SocketHandle)
        requires
            old(self)@.sockets.contains_key(handle),
        ensures
            final(self)@ == old(self)@.without(handle),
    {
        socket_set::remove(&mut self.sockets, handle);
    }

    /// The TCP socket at a place, to be changed in place.
    pub(crate) fn tcp_mut<'a>(&'a mut self, handle: SocketHandle) -> (r:
        &'a mut smoltcp::socket::tcp::Socket<'static>)
        requires
            old(self)@.has_tcp(handle),
        ensures
            tcp_view(*r) == old(self)@.tcp_at(handle),
            final(self)@ == old(self)@.with_tcp(handle, tcp_view(*final(r))),
    {
        socket_set::get_tcp(&mut self.sockets, handle)
    }

    /// The UDP socket at a place, to be changed in place.
    pub(crate) fn udp_mut<'a>(&'a mut self, handle: SocketHandle) -> (r:
        &'a mut smoltcp::socket::udp::Socket<'static>)
        requires
            old(self)@.has_udp(handle),
        ensures
            udp_view(*r) == old(self)@.udp_at(handle),
            final(self)@ == old(self)@.with_udp(handle, udp_view(*final(r))),
    {
        socket_set::get_udp(&mut self.sockets, handle)
    }

    /// The raw socket at a place, to be changed in place.
    pub(crate) fn raw_mut<'a>(&'a mut self, handle: SocketHandle) -> (r:
        &'a mut smoltcp::socket::raw::Socket<'static>)
        requires
            old(self)@.has_raw(handle),
        ensures
            raw_view(*r) == old(self)@.raw_at(handle),
            final(self)@ == old(self)@.with_raw(handle, raw_view(*final(r))),
    {
        socket_set::get_raw(&mut self.sockets, handle)
    }

    /// The whole set of sockets, for the stack to work on.
    pub fn sockets_mut<'a>(&'a mut self) -> (r: &'a mut SocketSet<'static>)
        ensures
            set_view(*r) == (SetView {
                sockets: old(self)@.sockets,
                growable: old(self)@.growable,
            }),
            final(self)@ == (ReactorView {
                sockets: set_view(*final(r)).sockets,
                growable: set_view(*final(r)).growable,
                ..old(self)@
            }),
    {
        &mut self.sockets
    }

    /// Asks the stack to look at the sockets.
    pub fn notify(&mut self)
        ensures
            final(self)@ == old(self)@.notify(),
    {
        self.notified = true;
    }

    /// Tells whether the stack has been asked to look at the sockets since the last call.
    pub fn take_notified(&mut self) -> (r: bool)
        ensures
            r == old(self)@.notified,
            final(self)@ == (ReactorView { notified: false, ..old(self)@ }),
    {
        let notified = self.notified;
        self.notified = false;
        notified
    }
}

} // verus!

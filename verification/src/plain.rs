//! Plain words for what the laws on single calls say of values, sockets and reactors.
use crate::addr::{IpAddr, IpEndpoint, SocketAddr};
use crate::error::{Error, ErrorKind};
use crate::reactor::{BufferSize, ReactorView};
use crate::stack::raw_layer::{IpVersion, RawView};
use crate::stack::tcp_layer::{TcpState, TcpView};
use crate::stack::udp_layer::UdpView;
use smoltcp::iface::SocketHandle;
use vstd::prelude::*;

verus! {

/// An error of the given kind with the given message.
pub open spec fn says(e: Error, kind: ErrorKind, message: Seq<char>) -> bool {
    &&& e.kind == kind
    &&& e.message matches Some(words)
    &&& words@ == message
}

/// A socket address of exactly the address and the port of an endpoint, and nothing else.
pub open spec fn names(addr: SocketAddr, endpoint: IpEndpoint) -> bool {
    match endpoint.addr {
        IpAddr::V4(bits) => {
            &&& addr matches SocketAddr::V4(v4)
            &&& v4.ip == bits
            &&& v4.port == endpoint.port
        },
        IpAddr::V6(bits) => {
            &&& addr matches SocketAddr::V6(v6)
            &&& v6.ip == bits
            &&& v6.port == endpoint.port
            &&& v6.flowinfo == 0
            &&& v6.scope_id == 0
        },
    }
}

/// An endpoint of exactly the address and the port of a socket address.
pub open spec fn points_to(endpoint: IpEndpoint, addr: SocketAddr) -> bool {
    match addr {
        SocketAddr::V4(v4) => endpoint.addr == IpAddr::V4(v4.ip) && endpoint.port == v4.port,
        SocketAddr::V6(v6) => endpoint.addr == IpAddr::V6(v6.ip) && endpoint.port == v6.port,
    }
}

/// `0.0.0.0` or `::`.
pub open spec fn unspecified(addr: IpAddr) -> bool {
    addr == IpAddr::V4(0) || addr == IpAddr::V6(0)
}

/// The first octets of a buffer are the given ones, and all others are as they were.
pub open spec fn copied(data: Seq<u8>, before: Seq<u8>, after: Seq<u8>) -> bool {
    &&& data.len() <= before.len()
    &&& after.len() == before.len()
    &&& forall|i: int| 0 <= i < data.len() ==> #[trigger] after[i] == data[i]
    &&& forall|i: int| data.len() <= i < before.len() ==> #[trigger] after[i] == before[i]
}

/// Nothing of a reactor changed but the socket at one place, and whether the stack was asked to
/// look at the sockets.
pub open spec fn others_kept(
    before: ReactorView,
    after: ReactorView,
    handle: SocketHandle,
) -> bool {
    &&& after.growable == before.growable
    &&& after.buffer_size == before.buffer_size
    &&& forall|other: SocketHandle|
        other != handle ==> #[trigger] after.sockets.contains_key(other)
            == before.sockets.contains_key(other)
    &&& forall|other: SocketHandle|
        other != handle && before.sockets.contains_key(other) ==> #[trigger] after.sockets[other]
            == before.sockets[other]
}

/// A TCP socket that nothing was done with yet, in the given state.
pub open spec fn untouched_tcp(socket: TcpView, state: TcpState, size: BufferSize) -> bool {
    &&& socket.state == state
    &&& socket.rx.len() == 0
    &&& socket.tx.len() == 0
    &&& socket.rx_capacity == size.tcp_rx_size
    &&& socket.tx_capacity == size.tcp_tx_size
    &&& !socket.fin_received
    &&& socket.recv_task is None
    &&& socket.send_task is None
}

/// A UDP socket that nothing was sent or received through yet.
pub open spec fn untouched_udp(socket: UdpView, size: BufferSize) -> bool {
    &&& socket.rx.len() == 0
    &&& socket.tx.len() == 0
    &&& socket.rx_capacity == size.udp_rx_size
    &&& socket.rx_packets == size.udp_rx_meta_size
    &&& socket.tx_capacity == size.udp_tx_size
    &&& socket.tx_packets == size.udp_tx_meta_size
    &&& socket.recv_task is None
    &&& socket.send_task is None
    &&& forall|n: nat| #[trigger]
        socket.tx_room.contains(n) <==> n <= size.udp_tx_size && size.udp_tx_meta_size > 0
}

/// A raw socket for a protocol that nothing was sent or received through yet.
pub open spec fn untouched_raw(
    socket: RawView,
    ip_version: IpVersion,
    ip_protocol: u8,
    size: BufferSize,
) -> bool {
    &&& socket.ip_version == ip_version
    &&& socket.ip_protocol == ip_protocol
    &&& socket.rx.len() == 0
    &&& socket.tx.len() == 0
    &&& socket.rx_capacity == size.raw_rx_size
    &&& socket.rx_packets == size.raw_rx_meta_size
    &&& socket.tx_capacity == size.raw_tx_size
    &&& socket.tx_packets == size.raw_tx_meta_size
    &&& socket.recv_task is None
    &&& socket.send_task is None
    &&& forall|n: nat| #[trigger]
        socket.tx_room.contains(n) <==> n <= size.raw_tx_size && size.raw_tx_meta_size > 0
}

} // verus!

//! UDP sockets of the stack.
use crate::addr::{IpAddr, IpEndpoint, IpListenEndpoint};
use crate::error::Refusal;
use crate::stack::waker::task;
use smoltcp::socket::udp::{self, PacketBuffer, PacketMetadata, Socket};
use smoltcp::wire::{IpAddress, Ipv4Address, Ipv6Address};
use std::task::Waker;
use vstd::prelude::*;

verus! {

/// A UDP socket.
#[verifier::external_type_specification]
#[verifier::external_body]
pub struct ExUdpSocket<'a>(smoltcp::socket::udp::Socket<'a>);

/// Why a socket is not bound.
#[derive(Debug, Clone, Copy, PartialEq, Eq, Structural)]
pub enum BindError {
    InvalidState,
    Unaddressable,
}

/// Why a socket takes no datagram to send.
#[derive(Debug, Clone, Copy, PartialEq, Eq, Structural)]
pub enum SendError {
    Unaddressable,
    BufferFull,
}

/// Why a socket gives no datagram out.
#[derive(Debug, Clone, Copy, PartialEq, Eq, Structural)]
pub enum RecvError {
    Exhausted,
    Truncated,
}

impl Refusal for BindError {
    open spec fn text(&self) -> Seq<char> {
        match self {
            BindError::InvalidState => "invalid state"@,
            BindError::Unaddressable => "unaddressable"@,
        }
    }

    fn describe(&self) -> (r: &str) {
        match self {
            BindError::InvalidState => "invalid state",
            BindError::Unaddressable => "unaddressable",
        }
    }
}

impl Refusal for SendError {
    open spec fn text(&self) -> Seq<char> {
        match self {
            SendError::Unaddressable => "unaddressable"@,
            SendError::BufferFull => "buffer full"@,
        }
    }

    fn describe(&self) -> (r: &str) {
        match self {
            SendError::Unaddressable => "unaddressable",
            SendError::BufferFull => "buffer full",
        }
    }
}

impl Refusal for RecvError {
    open spec fn text(&self) -> Seq<char> {
        match self {
            RecvError::Exhausted => "exhausted"@,
            RecvError::Truncated => "truncated"@,
        }
    }

    fn describe(&self) -> (r: &str) {
        match self {
            RecvError::Exhausted => "exhausted",
            RecvError::Truncated => "truncated",
        }
    }
}

/// Where a received datagram came from, and the address that it was sent to.
#[derive(Debug, Clone, Copy, PartialEq, Eq)]
pub struct Origin {
    pub endpoint: IpEndpoint,
    pub local_address: Option<IpAddr>,
}

/// A datagram that was received.
pub struct Received {
    pub data: Seq<u8>,
    pub origin: Origin,
}

/// A datagram that waits to be sent.
pub struct Outgoing {
    pub data: Seq<u8>,
    pub target: IpEndpoint,
    /// The local address to send it from, where one was asked for.
    pub local_address: Option<IpAddr>,
}

/// How many octets datagrams hold together.
pub open spec fn octets(datagrams: Seq<Outgoing>) -> nat
    decreases datagrams.len(),
{
    if datagrams.len() == 0 {
        0
    } else {
        octets(datagrams.drop_last()) + datagrams.last().data.len()
    }
}

/// What a UDP socket holds.
pub struct UdpView {
    /// What the socket is bound to.
    pub endpoint: IpListenEndpoint,
    /// The datagrams received and not yet read, oldest first.
    pub rx: Seq<Received>,
    /// How many octets of payload the receive buffer can hold.
    pub rx_capacity: nat,
    /// How many datagrams the receive buffer can hold.
    pub rx_packets: nat,
    /// The datagrams that wait to be sent, oldest first.
    pub tx: Seq<Outgoing>,
    /// How many octets of payload the transmit buffer can hold.
    pub tx_capacity: nat,
    /// How many datagrams the transmit buffer can hold.
    pub tx_packets: nat,
    /// The lengths of the datagrams for which the transmit buffer has room now. That is less
    /// than the free octets say: a datagram lies in one piece, and there is a limit on their
    /// number.
    pub tx_room: Set<nat>,
    /// The task that waits to receive.
    pub recv_task: Option<int>,
    /// The task that waits to send.
    pub send_task: Option<int>,
}

impl UdpView {
    /// A new socket.
    pub open spec fn fresh(
        rx_capacity: nat,
        rx_packets: nat,
        tx_capacity: nat,
        tx_packets: nat,
    ) -> UdpView {
        UdpView {
            endpoint: IpListenEndpoint::nowhere(),
            rx: Seq::empty(),
            rx_capacity,
            rx_packets,
            tx: Seq::empty(),
            tx_capacity,
            tx_packets,
            tx_room: Set::new(|n: nat| n <= tx_capacity && tx_packets > 0),
            recv_task: None,
            send_task: None,
        }
    }

    /// The socket with a task that waits to receive.
    pub open spec fn awaited_by_reader(self, task: int) -> UdpView {
        UdpView { recv_task: Some(task), ..self }
    }

    /// The socket with a task that waits to send.
    pub open spec fn awaited_by_writer(self, task: int) -> UdpView {
        UdpView { send_task: Some(task), ..self }
    }

    /// The socket when it has just been bound. The tasks that waited are woken.
    pub open spec fn bound(self, endpoint: IpListenEndpoint) -> UdpView {
        UdpView { endpoint, recv_task: None, send_task: None, ..self }
    }

    /// The socket without its oldest received datagram.
    pub open spec fn drained(self) -> UdpView {
        UdpView { rx: self.rx.drop_first(), ..self }
    }

    /// What becomes of a call to bind.
    pub open spec fn bind_result(self, endpoint: IpListenEndpoint) -> Result<(), BindError> {
        if endpoint.port == 0 {
            Err(BindError::Unaddressable)
        } else if self.endpoint.port != 0 {
            Err(BindError::InvalidState)
        } else {
            Ok(())
        }
    }

    /// Whether one more datagram, of `n` octets, keeps within the number and the octets that the
    /// transmit buffer can hold.
    pub open spec fn fits(self, n: nat) -> bool {
        self.tx.len() < self.tx_packets && octets(self.tx) + n <= self.tx_capacity
    }

    /// Whether there is room at most for what fits.
    pub open spec fn room_bounded(self) -> bool {
        forall|n: nat| #[trigger] self.tx_room.contains(n) ==> self.fits(n)
    }

    /// What becomes of a call to send a datagram of `n` octets.
    pub open spec fn send_result(self, n: nat, target: IpEndpoint) -> Result<(), SendError> {
        if self.endpoint.port == 0 || target.addr.unspecified() || target.port == 0 {
            Err(SendError::Unaddressable)
        } else if self.tx_room.contains(n) {
            Ok(())
        } else {
            Err(SendError::BufferFull)
        }
    }

    /// What becomes of a call to receive into a buffer of `room` octets.
    pub open spec fn recv_result(self, room: nat) -> Result<(usize, Origin), RecvError> {
        if self.rx.len() == 0 {
            Err(RecvError::Exhausted)
        } else if room < self.rx[0].data.len() {
            Err(RecvError::Truncated)
        } else {
            Ok((self.rx[0].data.len() as usize, self.rx[0].origin))
        }
    }
}

/// What a UDP socket holds.
pub uninterp spec fn udp_view(socket: Socket<'static>) -> UdpView;

/// `udp::Socket::new`, with buffers for the given numbers of octets and of datagrams: an unbound
/// socket with empty buffers. No vector is larger than `isize::MAX` octets, and the record of a
/// datagram takes fewer than 256.
#[verifier::external_body]
pub(crate) fn new_socket(
    rx_size: usize,
    rx_packets: usize,
    tx_size: usize,
    tx_packets: usize,
) -> (r: Socket<'static>)
    requires
        rx_size <= isize::MAX,
        rx_packets <= isize::MAX / 256,
        tx_size <= isize::MAX,
        tx_packets <= isize::MAX / 256,
    ensures
        udp_view(r) == UdpView::fresh(
            rx_size as nat,
            rx_packets as nat,
            tx_size as nat,
            tx_packets as nat,
        ),
{
    Socket::new(
        PacketBuffer::new(vec![PacketMetadata::EMPTY; rx_packets], vec![0; rx_size]),
        PacketBuffer::new(vec![PacketMetadata::EMPTY; tx_packets], vec![0; tx_size]),
    )
}

/// `udp::Socket::endpoint`: what the socket is bound to.
#[verifier::external_body]
pub(crate) fn endpoint(socket: &Socket<'static>) -> (r: IpListenEndpoint)
    ensures
        r == udp_view(*socket).endpoint,
{
    let endpoint = socket.endpoint();
    let addr = match endpoint.addr {
        None => None,
        Some(IpAddress::Ipv4(v4)) => Some(IpAddr::V4(v4.to_bits())),
        Some(IpAddress::Ipv6(v6)) => Some(IpAddr::V6(v6.to_bits())),
    };
    IpListenEndpoint { addr, port: endpoint.port }
}

/// `udp::Socket::bind`: refuses port 0, and a socket that is bound already.
#[verifier::external_body]
pub(crate) fn bind(socket: &mut Socket<'static>, endpoint: IpListenEndpoint) -> (r: Result<
    (),
    BindError,
>)
    ensures
        r == udp_view(*old(socket)).bind_result(endpoint),
        udp_view(*final(socket)) == if r is Ok {
            udp_view(*old(socket)).bound(endpoint)
        } else {
            udp_view(*old(socket))
        },
{
    let addr = match endpoint.addr {
        None => None,
        Some(IpAddr::V4(bits)) => Some(IpAddress::Ipv4(Ipv4Address::from_bits(bits))),
        Some(IpAddr::V6(bits)) => Some(IpAddress::Ipv6(Ipv6Address::from_bits(bits))),
    };
    match socket.bind(smoltcp::wire::IpListenEndpoint { addr, port: endpoint.port }) {
        Ok(()) => Ok(()),
        Err(udp::BindError::InvalidState) => Err(BindError::InvalidState),
        Err(udp::BindError::Unaddressable) => Err(BindError::Unaddressable),
    }
}

/// `udp::Socket::send_slice`, to a target, and from a local address where one is asked for. It
/// refuses an unbound socket and a target with port 0 or an unspecified address, then a datagram
/// for which there is no room. Otherwise the datagram is queued, whole, behind the others. For
/// which lengths there is room is not stated in full, only that the queue never holds more
/// datagrams, nor more octets, than the transmit buffer was made for, so that there is room for
/// none once there are as many as that.
#[verifier::external_body]
pub(crate) fn send_slice(
    socket: &mut Socket<'static>,
    data: &[u8],
    target: IpEndpoint,
    local_address: Option<IpAddr>,
) -> (r: Result<(), SendError>)
    ensures
        r == udp_view(*old(socket)).send_result(data@.len(), target),
        r is Ok ==> udp_view(*old(socket)).fits(data@.len()),
        udp_view(*final(socket)).room_bounded(),
        udp_view(*final(socket)) == match r {
            Ok(()) => UdpView {
                tx: udp_view(*old(socket)).tx.push(
                    Outgoing { data: data@, target, local_address },
                ),
                tx_room: udp_view(*final(socket)).tx_room,
                ..udp_view(*old(socket))
            },
            Err(SendError::BufferFull) => UdpView {
                tx_room: udp_view(*final(socket)).tx_room,
                ..udp_view(*old(socket))
            },
            Err(SendError::Unaddressable) => udp_view(*old(socket)),
        },
{
    let addr = match target.addr {
        IpAddr::V4(bits) => IpAddress::Ipv4(Ipv4Address::from_bits(bits)),
        IpAddr::V6(bits) => IpAddress::Ipv6(Ipv6Address::from_bits(bits)),
    };
    let mut meta = udp::UdpMetadata::from((addr, target.port));
    meta.local_address = match local_address {
        None => None,
        Some(IpAddr::V4(bits)) => Some(IpAddress::Ipv4(Ipv4Address::from_bits(bits))),
        Some(IpAddr::V6(bits)) => Some(IpAddress::Ipv6(Ipv6Address::from_bits(bits))),
    };
    match socket.send_slice(data, meta) {
        Ok(()) => Ok(()),
        Err(udp::SendError::Unaddressable) => Err(SendError::Unaddressable),
        Err(udp::SendError::BufferFull) => Err(SendError::BufferFull),
    }
}

/// `udp::Socket::recv_slice`: takes the oldest datagram out and copies it to the front of
/// `data`. One for which `data` is too short is taken out and lost.
#[verifier::external_body]
pub(crate) fn recv_slice(socket: &mut Socket<'static>, data: &mut [u8]) -> (r: Result<
    (usize, Origin),
    RecvError,
>)
    ensures
        r == udp_view(*old(socket)).recv_result(old(data)@.len()),
        final(data)@ == match r {
            Ok((n, _)) => udp_view(*old(socket)).rx[0].data + old(data)@.skip(n as int),
            Err(_) => old(data)@,
        },
        udp_view(*final(socket)) == match r {
            Err(RecvError::Exhausted) => udp_view(*old(socket)),
            _ => udp_view(*old(socket)).drained(),
        },
{
    let (n, meta) = match socket.recv_slice(data) {
        Ok(received) => received,
        Err(udp::RecvError::Exhausted) => return Err(RecvError::Exhausted),
        Err(udp::RecvError::Truncated) => return Err(RecvError::Truncated),
    };
    let addr = match meta.endpoint.addr {
        IpAddress::Ipv4(v4) => IpAddr::V4(v4.to_bits()),
        IpAddress::Ipv6(v6) => IpAddr::V6(v6.to_bits()),
    };
    let local_address = match meta.local_address {
        None => None,
        Some(IpAddress::Ipv4(v4)) => Some(IpAddr::V4(v4.to_bits())),
        Some(IpAddress::Ipv6(v6)) => Some(IpAddr::V6(v6.to_bits())),
    };
    Ok((n, Origin { endpoint: IpEndpoint { addr, port: meta.endpoint.port }, local_address }))
}

/// `udp::Socket::register_recv_waker`: from now on the task of `waker`, and no other, is woken
/// when there may be a datagram to read.
#[verifier::external_body]
pub(crate) fn register_recv_waker(socket: &mut Socket<'static>, waker: &Waker)
    ensures
        udp_view(*final(socket)) == udp_view(*old(socket)).awaited_by_reader(task(*waker)),
{
    socket.register_recv_waker(waker)
}

/// `udp::Socket::register_send_waker`: from now on the task of `waker`, and no other, is woken
/// when there may be room for a datagram.
#[verifier::external_body]
pub(crate) fn register_send_waker(socket: &mut Socket<'static>, waker: &Waker)
    ensures
        udp_view(*final(socket)) == udp_view(*old(socket)).awaited_by_writer(task(*waker)),
{
    socket.register_send_waker(waker)
}

} // verus!

//! Raw IP sockets of the stack.
use crate::error::Refusal;
use crate::stack::waker::task;
use smoltcp::socket::raw::{self, PacketBuffer, PacketMetadata, Socket};
use std::task::Waker;
use vstd::prelude::*;

verus! {

/// A raw IP socket.
#[verifier::external_type_specification]
#[verifier::external_body]
pub struct ExRawSocket<'a>(smoltcp::socket::raw::Socket<'a>);

/// The versions of IP.
#[derive(Debug, Clone, Copy, PartialEq, Eq, Structural)]
pub enum IpVersion {
    Ipv4,
    Ipv6,
}

/// Why a socket takes no packet to send.
#[derive(Debug, Clone, Copy, PartialEq, Eq, Structural)]
pub enum SendError {
    BufferFull,
}

/// Why a socket gives no packet out.
#[derive(Debug, Clone, Copy, PartialEq, Eq, Structural)]
pub enum RecvError {
    Exhausted,
    Truncated,
}

impl Refusal for SendError {
    open spec fn text(&self) -> Seq<char> {
        "buffer full"@
    }

    fn describe(&self) -> (r: &str) {
        "buffer full"
    }
}

impl Refusal for RecvError {
    open spec fn text(&self) -> Seq<char> {
        match self {
            RecvError::Exhausted => "exhausted"@,
            RecvError::Truncated => "truncated"@,
        }
    }

    fn describe(&self) -> (r: &str) {
        match self {
            RecvError::Exhausted => "exhausted",
            RecvError::Truncated => "truncated",
        }
    }
}

/// How many octets packets hold together.
pub open spec fn octets(packets: Seq<Seq<u8>>) -> nat
    decreases packets.len(),
{
    if packets.len() == 0 {
        0
    } else {
        octets(packets.drop_last()) + packets.last().len()
    }
}

/// What a raw socket holds.
pub struct RawView {
    pub ip_version: IpVersion,
    /// The number of the protocol that the packets carry.
    pub ip_protocol: u8,
    /// The packets received and not yet read, oldest first.
    pub rx: Seq<Seq<u8>>,
    /// How many octets the receive buffer can hold.
    pub rx_capacity: nat,
    /// How many packets the receive buffer can hold.
    pub rx_packets: nat,
    /// The packets that wait to be sent, oldest first.
    pub tx: Seq<Seq<u8>>,
    /// How many octets the transmit buffer can hold.
    pub tx_capacity: nat,
    /// How many packets the transmit buffer can hold.
    pub tx_packets: nat,
    /// The lengths of the packets for which the transmit buffer has room now. That is less than
    /// the free octets say: a packet lies in one piece, and there is a limit on their number.
    pub tx_room: Set<nat>,
    /// The task that waits to receive.
    pub recv_task: Option<int>,
    /// The task that waits to send.
    pub send_task: Option<int>,
}

impl RawView {
    /// A new socket.
    pub open spec fn fresh(
        ip_version: IpVersion,
        ip_protocol: u8,
        rx_capacity: nat,
        rx_packets: nat,
        tx_capacity: nat,
        tx_packets: nat,
    ) -> RawView {
        RawView {
            ip_version,
            ip_protocol,
            rx: Seq::empty(),
            rx_capacity,
            rx_packets,
            tx: Seq::empty(),
            tx_capacity,
            tx_packets,
            tx_room: Set::new(|n: nat| n <= tx_capacity && tx_packets > 0),
            recv_task: None,
            send_task: None,
        }
    }

    /// The socket with a task that waits to receive.
    pub open spec fn awaited_by_reader(self, task: int) -> RawView {
        RawView { recv_task: Some(task), ..self }
    }

    /// The socket with a task that waits to send.
    pub open spec fn awaited_by_writer(self, task: int) -> RawView {
        RawView { send_task: Some(task), ..self }
    }

    /// The socket without its oldest received packet.
    pub open spec fn drained(self) -> RawView {
        RawView { rx: self.rx.drop_first(), ..self }
    }

    /// Whether one more packet, of `n` octets, keeps within the number and the octets that the
    /// transmit buffer can hold.
    pub open spec fn fits(self, n: nat) -> bool {
        self.tx.len() < self.tx_packets && octets(self.tx) + n <= self.tx_capacity
    }

    /// Whether there is room at most for what fits.
    pub open spec fn room_bounded(self) -> bool {
        forall|n: nat| #[trigger] self.tx_room.contains(n) ==> self.fits(n)
    }

    /// What becomes of a call to send a packet of `n` octets.
    pub open spec fn send_result(self, n: nat) -> Result<(), SendError> {
        if self.tx_room.contains(n) {
            Ok(())
        } else {
            Err(SendError::BufferFull)
        }
    }

    /// What becomes of a call to receive into a buffer of `room` octets.
    pub open spec fn recv_result(self, room: nat) -> Result<usize, RecvError> {
        if self.rx.len() == 0 {
            Err(RecvError::Exhausted)
        } else if room < self.rx[0].len() {
            Err(RecvError::Truncated)
        } else {
            Ok(self.rx[0].len() as usize)
        }
    }
}

/// What a raw socket holds.
pub uninterp spec fn raw_view(socket: Socket<'static>) -> RawView;

/// `raw::Socket::new`, with buffers for the given numbers of octets and of packets: a socket for
/// one protocol, with empty buffers. No vector is larger than `isize::MAX` octets, and the
/// record of a packet takes fewer than 256.
#[verifier::external_body]
pub(crate) fn new_socket(
    ip_version: IpVersion,
    ip_protocol: u8,
    rx_size: usize,
    rx_packets: usize,
    tx_size: usize,
    tx_packets: usize,
) -> (r: Socket<'static>)
    requires
        rx_size <= isize::MAX,
        rx_packets <= isize::MAX / 256,
        tx_size <= isize::MAX,
        tx_packets <= isize::MAX / 256,
    ensures
        raw_view(r) == RawView::fresh(
            ip_version,
            ip_protocol,
            rx_size as nat,
            rx_packets as nat,
            tx_size as nat,
            tx_packets as nat,
        ),
{
    let version = match ip_version {
        IpVersion::Ipv4 => smoltcp::wire::IpVersion::Ipv4,
        IpVersion::Ipv6 => smoltcp::wire::IpVersion::Ipv6,
    };
    Socket::new(
        version,
        smoltcp::wire::IpProtocol::from(ip_protocol),
        PacketBuffer::new(vec![PacketMetadata::EMPTY; rx_packets], vec![0; rx_size]),
        PacketBuffer::new(vec![PacketMetadata::EMPTY; tx_packets], vec![0; tx_size]),
    )
}

/// `raw::Socket::send_slice`: refuses a packet for which there is no room; otherwise queues it,
/// whole, behind the others. For which lengths there is room is not stated in full, only that the
/// queue never holds more packets, nor more octets, than the transmit buffer was made for, so
/// that there is room for none once there are as many as that.
#[verifier::external_body]
pub(crate) fn send_slice(socket: &mut Socket<'static>, data: &[u8]) -> (r: Result<(), SendError>)
    ensures
        r == raw_view(*old(socket)).send_result(data@.len()),
        r is Ok ==> raw_view(*old(socket)).fits(data@.len()),
        raw_view(*final(socket)).room_bounded(),
        raw_view(*final(socket)) == (RawView {
            tx: if r is Ok {
                raw_view(*old(socket)).tx.push(data@)
            } else {
                raw_view(*old(socket)).tx
            },
            tx_room: raw_view(*final(socket)).tx_room,
            ..raw_view(*old(socket))
        }),
{
    match socket.send_slice(data) {
        Ok(()) => Ok(()),
        Err(raw::SendError::BufferFull) => Err(SendError::BufferFull),
    }
}

/// `raw::Socket::recv_slice`: takes the oldest packet out and copies it to the front of `data`.
/// One for which `data` is too short is taken out and lost.
#[verifier::external_body]
pub(crate) fn recv_slice(socket: &mut Socket<'static>, data: &mut [u8]) -> (r: Result<
    usize,
    RecvError,
>)
    ensures
        r == raw_view(*old(socket)).recv_result(old(data)@.len()),
        final(data)@ == match r {
            Ok(n) => raw_view(*old(socket)).rx[0] + old(data)@.skip(n as int),
            Err(_) => old(data)@,
        },
        raw_view(*final(socket)) == match r {
            Err(RecvError::Exhausted) => raw_view(*old(socket)),
            _ => raw_view(*old(socket)).drained(),
        },
{
    match socket.recv_slice(data) {
        Ok(n) => Ok(n),
        Err(raw::RecvError::Exhausted) => Err(RecvError::Exhausted),
        Err(raw::RecvError::Truncated) => Err(RecvError::Truncated),
    }
}

/// `raw::Socket::register_recv_waker`: from now on the task of `waker`, and no other, is woken
/// when there may be a packet to read.
#[verifier::external_body]
pub(crate) fn register_recv_waker(socket: &mut Socket<'static>, waker: &Waker)
    ensures
        raw_view(*final(socket)) == raw_view(*old(socket)).awaited_by_reader(task(*waker)),
{
    socket.register_recv_waker(waker)
}

/// `raw::Socket::register_send_waker`: from now on the task of `waker`, and no other, is woken
/// when there may be room for a packet.
#[verifier::external_body]
pub(crate) fn register_send_waker(socket: &mut Socket<'static>, waker: &Waker)
    ensures
        raw_view(*final(socket)) == raw_view(*old(socket)).awaited_by_writer(task(*waker)),
{
    socket.register_send_waker(waker)
}

} // verus!

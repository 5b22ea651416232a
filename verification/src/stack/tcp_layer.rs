//! TCP sockets of the stack.
use crate::addr::{IpAddr, IpEndpoint, IpListenEndpoint};
use crate::error::Refusal;
use crate::stack::waker::task;
use smoltcp::iface::Context;
use smoltcp::socket::tcp::{self, Socket, SocketBuffer, State};
use smoltcp::wire::{IpAddress, Ipv4Address, Ipv6Address};
use std::task::Waker;
use vstd::prelude::*;

verus! {

/// A TCP socket.
#[verifier::external_type_specification]
#[verifier::external_body]
pub struct ExTcpSocket<'a>(smoltcp::socket::tcp::Socket<'a>);

/// What an interface lends to a socket that opens a connection.
#[verifier::external_type_specification]
#[verifier::external_body]
pub struct ExContext(smoltcp::iface::Context);

/// The states of a connection.
#[derive(Debug, Clone, Copy, PartialEq, Eq, Structural)]
pub enum TcpState {
    Closed,
    Listen,
    SynSent,
    SynReceived,
    Established,
    FinWait1,
    FinWait2,
    CloseWait,
    Closing,
    LastAck,
    TimeWait,
}

/// Why a socket does not start to listen.
#[derive(Debug, Clone, Copy, PartialEq, Eq, Structural)]
pub enum ListenError {
    InvalidState,
    Unaddressable,
}

/// Why a socket does not start to connect.
#[derive(Debug, Clone, Copy, PartialEq, Eq, Structural)]
pub enum ConnectError {
    InvalidState,
    Unaddressable,
}

/// Why a socket takes no octets to send.
#[derive(Debug, Clone, Copy, PartialEq, Eq, Structural)]
pub enum SendError {
    InvalidState,
}

/// Why a socket gives no octets out.
#[derive(Debug, Clone, Copy, PartialEq, Eq, Structural)]
pub enum RecvError {
    InvalidState,
    Finished,
}

impl Refusal for ListenError {
    open spec fn text(&self) -> Seq<char> {
        match self {
            ListenError::InvalidState => "invalid state"@,
            ListenError::Unaddressable => "unaddressable destination"@,
        }
    }

    fn describe(&self) -> (r: &str) {
        match self {
            ListenError::InvalidState => "invalid state",
            ListenError::Unaddressable => "unaddressable destination",
        }
    }
}

impl Refusal for ConnectError {
    open spec fn text(&self) -> Seq<char> {
        match self {
            ConnectError::InvalidState => "invalid state"@,
            ConnectError::Unaddressable => "unaddressable destination"@,
        }
    }

    fn describe(&self) -> (r: &str) {
        match self {
            ConnectError::InvalidState => "invalid state",
            ConnectError::Unaddressable => "unaddressable destination",
        }
    }
}

impl Refusal for SendError {
    open spec fn text(&self) -> Seq<char> {
        "invalid state"@
    }

    fn describe(&self) -> (r: &str) {
        "invalid state"
    }
}

impl Refusal for RecvError {
    open spec fn text(&self) -> Seq<char> {
        match self {
            RecvError::InvalidState => "invalid state"@,
            RecvError::Finished => "operation finished"@,
        }
    }

    fn describe(&self) -> (r: &str) {
        match self {
            RecvError::InvalidState => "invalid state",
            RecvError::Finished => "operation finished",
        }
    }
}

/// The two ends of a connection.
pub struct Ends {
    pub local: IpEndpoint,
    pub remote: IpEndpoint,
}

/// What a TCP socket holds.
pub struct TcpView {
    pub state: TcpState,
    /// The octets received and not yet read, oldest first.
    pub rx: Seq<u8>,
    /// How many octets `rx` can hold.
    pub rx_capacity: nat,
    /// Whether the peer has said that it will send no more.
    pub fin_received: bool,
    /// The octets written and not yet acknowledged, oldest first.
    pub tx: Seq<u8>,
    /// How many octets `tx` can hold.
    pub tx_capacity: nat,
    pub listen_endpoint: IpListenEndpoint,
    pub ends: Option<Ends>,
    /// The task that waits to read.
    pub recv_task: Option<int>,
    /// The task that waits to write, or for the state to change.
    pub send_task: Option<int>,
}

impl TcpView {
    /// A new socket.
    pub open spec fn fresh(rx_capacity: nat, tx_capacity: nat) -> TcpView {
        TcpView {
            state: TcpState::Closed,
            rx: Seq::empty(),
            rx_capacity,
            fin_received: false,
            tx: Seq::empty(),
            tx_capacity,
            listen_endpoint: IpListenEndpoint::nowhere(),
            ends: None,
            recv_task: None,
            send_task: None,
        }
    }

    /// Whether the socket takes part in the traffic at all.
    pub open spec fn is_open(self) -> bool {
        !(self.state is Closed || self.state is TimeWait)
    }

    /// Whether the sending half of the connection is open.
    pub open spec fn may_send(self) -> bool {
        self.state is Established || self.state is CloseWait
    }

    /// Whether the sending half of the connection is closed, in a state from which no segment
    /// and no timer leads back to one in which octets can be written.
    pub open spec fn write_closed(self) -> bool {
        ||| self.state is FinWait1
        ||| self.state is FinWait2
        ||| self.state is Closing
        ||| self.state is LastAck
        ||| self.state is TimeWait
        ||| self.state is Closed
    }

    /// Whether octets can be written now.
    pub open spec fn can_send(self) -> bool {
        self.may_send() && self.tx.len() < self.tx_capacity
    }

    /// Whether there is something to read, or may be later.
    pub open spec fn may_recv(self) -> bool {
        self.state is Established || self.state is FinWait1 || self.state is FinWait2
            || self.rx.len() > 0
    }

    /// Whether there is something to read now.
    pub open spec fn can_recv(self) -> bool {
        self.rx.len() > 0
    }

    /// How many of `n` octets the socket takes when they are written.
    pub open spec fn takes(self, n: nat) -> nat {
        if self.tx_capacity <= self.tx.len() {
            0
        } else if n <= self.tx_capacity - self.tx.len() {
            n
        } else {
            (self.tx_capacity - self.tx.len()) as nat
        }
    }

    /// How many octets the socket gives to a reader who has room for `n`.
    pub open spec fn gives(self, n: nat) -> nat {
        if n <= self.rx.len() {
            n
        } else {
            self.rx.len()
        }
    }

    /// The socket with a task that waits to read.
    pub open spec fn awaited_by_reader(self, task: int) -> TcpView {
        TcpView { recv_task: Some(task), ..self }
    }

    /// The socket with a task that waits to write, or for the state to change.
    pub open spec fn awaited_by_writer(self, task: int) -> TcpView {
        TcpView { send_task: Some(task), ..self }
    }

    /// The socket when it has just begun to listen.
    pub open spec fn listening(self, endpoint: IpListenEndpoint) -> TcpView {
        TcpView {
            state: TcpState::Listen,
            listen_endpoint: endpoint,
            ..TcpView::fresh(self.rx_capacity, self.tx_capacity)
        }
    }

    /// The socket when it has just begun to connect.
    pub open spec fn connecting(self, ends: Ends) -> TcpView {
        TcpView {
            state: TcpState::SynSent,
            ends: Some(ends),
            ..TcpView::fresh(self.rx_capacity, self.tx_capacity)
        }
    }

    /// The state once the sending half is closed.
    pub open spec fn closed_state(self) -> TcpState {
        match self.state {
            TcpState::Listen => TcpState::Closed,
            TcpState::SynSent => TcpState::Closed,
            TcpState::SynReceived => TcpState::FinWait1,
            TcpState::Established => TcpState::FinWait1,
            TcpState::CloseWait => TcpState::LastAck,
            state => state,
        }
    }

    /// The socket once its sending half is closed. Where that changes the state, the tasks that
    /// waited are woken.
    pub open spec fn closed(self) -> TcpView {
        if self.closed_state() == self.state {
            self
        } else {
            TcpView { state: self.closed_state(), recv_task: None, send_task: None, ..self }
        }
    }

    /// What becomes of a call to listen.
    pub open spec fn listen_result(self, endpoint: IpListenEndpoint) -> Result<(), ListenError> {
        if endpoint.port == 0 {
            Err(ListenError::Unaddressable)
        } else if !self.is_open() || (self.state is Listen && self.listen_endpoint == endpoint) {
            Ok(())
        } else {
            Err(ListenError::InvalidState)
        }
    }

    /// What becomes of a call to connect.
    pub open spec fn connect_result(self, ends: Ends) -> Result<(), ConnectError> {
        if self.is_open() {
            Err(ConnectError::InvalidState)
        } else if ends.remote.port == 0 || ends.remote.addr.unspecified() || ends.local.port == 0
            || ends.local.addr.unspecified() || !ends.local.addr.same_version(ends.remote.addr) {
            Err(ConnectError::Unaddressable)
        } else {
            Ok(())
        }
    }
}

/// What a TCP socket holds.
pub uninterp spec fn tcp_view(socket: Socket<'static>) -> TcpView;

/// `tcp::Socket::new`, with buffers of the given sizes: a closed socket with empty buffers. It
/// panics for a receive buffer of more than 1 GiB, and no vector is larger than `isize::MAX`.
#[verifier::external_body]
pub(crate) fn new_socket(rx_size: usize, tx_size: usize) -> (r: Socket<'static>)
    requires
        rx_size <= 0x4000_0000,
        tx_size <= isize::MAX,
    ensures
        tcp_view(r) == TcpView::fresh(rx_size as nat, tx_size as nat),
{
    Socket::new(SocketBuffer::new(vec![0; rx_size]), SocketBuffer::new(vec![0; tx_size]))
}

/// `tcp::Socket::state`. A connection is established only between two known ends.
#[verifier::external_body]
pub(crate) fn state(socket: &Socket<'static>) -> (r: TcpState)
    ensures
        r == tcp_view(*socket).state,
        r is Established ==> tcp_view(*socket).ends is Some,
{
    match socket.state() {
        State::Closed => TcpState::Closed,
        State::Listen => TcpState::Listen,
        State::SynSent => TcpState::SynSent,
        State::SynReceived => TcpState::SynReceived,
        State::Established => TcpState::Established,
        State::FinWait1 => TcpState::FinWait1,
        State::FinWait2 => TcpState::FinWait2,
        State::CloseWait => TcpState::CloseWait,
        State::Closing => TcpState::Closing,
        State::LastAck => TcpState::LastAck,
        State::TimeWait => TcpState::TimeWait,
    }
}

/// `tcp::Socket::is_open`: whether the state is neither closed nor time-wait.
#[verifier::external_body]
pub(crate) fn is_open(socket: &Socket<'static>) -> (r: bool)
    ensures
        r == tcp_view(*socket).is_open(),
{
    socket.is_open()
}

/// `tcp::Socket::may_send`: whether the state is established or close-wait.
#[verifier::external_body]
pub(crate) fn may_send(socket: &Socket<'static>) -> (r: bool)
    ensures
        r == tcp_view(*socket).may_send(),
{
    socket.may_send()
}

/// `tcp::Socket::can_send`: whether the socket may send and its transmit buffer is not full.
#[verifier::external_body]
pub(crate) fn can_send(socket: &Socket<'static>) -> (r: bool)
    ensures
        r == tcp_view(*socket).can_send(),
{
    socket.can_send()
}

/// `tcp::Socket::can_recv`: whether the receive buffer is not empty.
#[verifier::external_body]
pub(crate) fn can_recv(socket: &Socket<'static>) -> (r: bool)
    ensures
        r == tcp_view(*socket).can_recv(),
{
    socket.can_recv()
}

/// `tcp::Socket::send_queue`: how many octets the transmit buffer holds.
#[verifier::external_body]
pub(crate) fn send_queue(socket: &Socket<'static>) -> (r: usize)
    ensures
        r == tcp_view(*socket).tx.len(),
{
    socket.send_queue()
}

/// `tcp::Socket::local_endpoint`: the local end of the connection, if there is one.
#[verifier::external_body]
pub(crate) fn local_endpoint(socket: &Socket<'static>) -> (r: Option<IpEndpoint>)
    ensures
        r == match tcp_view(*socket).ends {
            Some(ends) => Some(ends.local),
            None => None,
        },
{
    let endpoint = socket.local_endpoint()?;
    let addr = match endpoint.addr {
        IpAddress::Ipv4(v4) => IpAddr::V4(v4.to_bits()),
        IpAddress::Ipv6(v6) => IpAddr::V6(v6.to_bits()),
    };
    Some(IpEndpoint { addr, port: endpoint.port })
}

/// `tcp::Socket::remote_endpoint`: the remote end of the connection, if there is one.
#[verifier::external_body]
pub(crate) fn remote_endpoint(socket: &Socket<'static>) -> (r: Option<IpEndpoint>)
    ensures
        r == match tcp_view(*socket).ends {
            Some(ends) => Some(ends.remote),
            None => None,
        },
{
    let endpoint = socket.remote_endpoint()?;
    let addr = match endpoint.addr {
        IpAddress::Ipv4(v4) => IpAddr::V4(v4.to_bits()),
        IpAddress::Ipv6(v6) => IpAddr::V6(v6.to_bits()),
    };
    Some(IpEndpoint { addr, port: endpoint.port })
}

/// `tcp::Socket::listen`. It refuses port 0, and a socket that is open, except that listening
/// once more on the same endpoint changes nothing. Otherwise the socket is emptied, the tasks
/// that waited are woken, and it listens.
#[verifier::external_body]
pub(crate) fn listen(socket: &mut Socket<'static>, endpoint: IpListenEndpoint) -> (r: Result<
    (),
    ListenError,
>)
    ensures
        r == tcp_view(*old(socket)).listen_result(endpoint),
        tcp_view(*final(socket)) == if r is Ok && !tcp_view(*old(socket)).is_open() {
            tcp_view(*old(socket)).listening(endpoint)
        } else {
            tcp_view(*old(socket))
        },
{
    let addr = match endpoint.addr {
        None => None,
        Some(IpAddr::V4(bits)) => Some(IpAddress::Ipv4(Ipv4Address::from_bits(bits))),
        Some(IpAddr::V6(bits)) => Some(IpAddress::Ipv6(Ipv6Address::from_bits(bits))),
    };
    match socket.listen(smoltcp::wire::IpListenEndpoint { addr, port: endpoint.port }) {
        Ok(()) => Ok(()),
        Err(tcp::ListenError::InvalidState) => Err(ListenError::InvalidState),
        Err(tcp::ListenError::Unaddressable) => Err(ListenError::Unaddressable),
    }
}

/// `tcp::Socket::connect`, from a given local endpoint, so that the interface chooses none. It
/// refuses a socket that is open, then an endpoint with port 0 or an unspecified address, and
/// ends of different versions of IP. Otherwise the socket is emptied, the tasks that waited are
/// woken, and it begins to connect. Which initial sequence number it draws is not stated.
#[verifier::external_body]
pub(crate) fn connect(
    socket: &mut Socket<'static>,
    cx: &mut Context,
    remote: IpEndpoint,
    local: IpEndpoint,
) -> (r: Result<(), ConnectError>)
    ensures
        r == tcp_view(*old(socket)).connect_result(Ends { local, remote }),
        tcp_view(*final(socket)) == if r is Ok {
            tcp_view(*old(socket)).connecting(Ends { local, remote })
        } else {
            tcp_view(*old(socket))
        },
{
    let remote_addr = match remote.addr {
        IpAddr::V4(bits) => IpAddress::Ipv4(Ipv4Address::from_bits(bits)),
        IpAddr::V6(bits) => IpAddress::Ipv6(Ipv6Address::from_bits(bits)),
    };
    let local_addr = match local.addr {
        IpAddr::V4(bits) => IpAddress::Ipv4(Ipv4Address::from_bits(bits)),
        IpAddr::V6(bits) => IpAddress::Ipv6(Ipv6Address::from_bits(bits)),
    };
    match socket.connect(cx, (remote_addr, remote.port), (local_addr, local.port)) {
        Ok(()) => Ok(()),
        Err(tcp::ConnectError::InvalidState) => Err(ConnectError::InvalidState),
        Err(tcp::ConnectError::Unaddressable) => Err(ConnectError::Unaddressable),
    }
}

/// `tcp::Socket::close`: closes the sending half. What was received stays.
#[verifier::external_body]
pub(crate) fn close(socket: &mut Socket<'static>)
    ensures
        tcp_view(*final(socket)) == tcp_view(*old(socket)).closed(),
{
    socket.close()
}

/// `tcp::Socket::send_slice`: refuses where the socket may not send; otherwise takes as many
/// octets, from the front, as the transmit buffer has room for, down to none.
#[verifier::external_body]
pub(crate) fn send_slice(socket: &mut Socket<'static>, data: &[u8]) -> (r: Result<
    usize,
    SendError,
>)
    ensures
        r is Ok <==> tcp_view(*old(socket)).may_send(),
        r matches Ok(n) ==> {
            let before = tcp_view(*old(socket));
            &&& n == before.takes(data@.len())
            &&& tcp_view(*final(socket)) == (TcpView {
                tx: before.tx + data@.take(n as int),
                ..before
            })
        },
        r is Err ==> tcp_view(*final(socket)) == tcp_view(*old(socket)),
{
    match socket.send_slice(data) {
        Ok(n) => Ok(n),
        Err(tcp::SendError::InvalidState) => Err(SendError::InvalidState),
    }
}

/// `tcp::Socket::recv_slice`: where nothing can come any more, says whether the peer closed in
/// an orderly way; otherwise moves as many octets as it has and `data` has room for, down to
/// none, to the front of `data`.
#[verifier::external_body]
pub(crate) fn recv_slice(socket: &mut Socket<'static>, data: &mut [u8]) -> (r: Result<
    usize,
    RecvError,
>)
    ensures
        r is Ok <==> tcp_view(*old(socket)).may_recv(),
        r matches Ok(n) ==> {
            let before = tcp_view(*old(socket));
            &&& n == before.gives(old(data)@.len())
            &&& final(data)@ == before.rx.take(n as int) + old(data)@.skip(n as int)
            &&& tcp_view(*final(socket)) == (TcpView { rx: before.rx.skip(n as int), ..before })
        },
        r matches Err(e) ==> {
            &&& e is Finished <==> tcp_view(*old(socket)).fin_received
            &&& final(data)@ == old(data)@
            &&& tcp_view(*final(socket)) == tcp_view(*old(socket))
        },
{
    match socket.recv_slice(data) {
        Ok(n) => Ok(n),
        Err(tcp::RecvError::InvalidState) => Err(RecvError::InvalidState),
        Err(tcp::RecvError::Finished) => Err(RecvError::Finished),
    }
}

/// `tcp::Socket::register_recv_waker`: from now on the task of `waker`, and no other, is woken
/// when there may be something to read.
#[verifier::external_body]
pub(crate) fn register_recv_waker(socket: &mut Socket<'static>, waker: &Waker)
    ensures
        tcp_view(*final(socket)) == tcp_view(*old(socket)).awaited_by_reader(task(*waker)),
{
    socket.register_recv_waker(waker)
}

/// `tcp::Socket::register_send_waker`: from now on the task of `waker`, and no other, is woken
/// when the socket may take more octets or its state changes.
#[verifier::external_body]
pub(crate) fn register_send_waker(socket: &mut Socket<'static>, waker: &Waker)
    ensures
        tcp_view(*final(socket)) == tcp_view(*old(socket)).awaited_by_writer(task(*waker)),
{
    socket.register_send_waker(waker)
}

} // verus!

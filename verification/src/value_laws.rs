//! What single calls on addresses and errors give.
use crate::addr::{ep2sa, IpAddr, IpEndpoint, IpListenEndpoint, SocketAddr};
use crate::error::{map_err, Error, ErrorKind, Refusal};
use crate::plain::{names, points_to, says};
use crate::stack::{raw_layer, tcp_layer, udp_layer};
use vstd::prelude::*;

verus! {

/// An address and a port, put together, name just these two.
pub proof fn a_socket_addr_is_its_address_and_port(ip: IpAddr, port: u16, r: SocketAddr)
    requires
        call_ensures(SocketAddr::new, (ip, port), r),
    ensures
        names(r, IpEndpoint { addr: ip, port }),
{
}

/// What was put together is what the parts are asked for.
pub proof fn the_parts_of_a_socket_addr_are_what_was_put_in(
    ip: IpAddr,
    port: u16,
    addr: &SocketAddr,
    ip_part: IpAddr,
    port_part: u16,
)
    requires
        call_ensures(SocketAddr::new, (ip, port), *addr),
        call_ensures(SocketAddr::ip, (addr,), ip_part),
        call_ensures(SocketAddr::port, (addr,), port_part),
    ensures
        ip_part == ip,
        port_part == port,
{
}

/// The parts of any socket address, also of one with a flow label or a scope.
pub proof fn the_parts_of_a_socket_addr(addr: &SocketAddr, ip: IpAddr, port: u16)
    requires
        call_ensures(SocketAddr::ip, (addr,), ip),
        call_ensures(SocketAddr::port, (addr,), port),
    ensures
        points_to(IpEndpoint { addr: ip, port }, *addr),
{
}

/// The socket address of an endpoint names just that endpoint.
pub proof fn the_socket_addr_of_an_endpoint_names_it(endpoint: &IpEndpoint, r: SocketAddr)
    requires
        call_ensures(ep2sa, (endpoint,), r),
    ensures
        names(r, *endpoint),
{
}

/// The endpoints of a socket address have its address and its port, and so has what is listened
/// on for it.
pub proof fn the_endpoints_of_a_socket_addr_have_its_parts(
    addr: SocketAddr,
    endpoint: IpEndpoint,
    listened_on: IpListenEndpoint,
    exactly: IpListenEndpoint,
)
    requires
        call_ensures(<IpEndpoint as From<SocketAddr>>::from, (addr,), endpoint),
        call_ensures(<IpListenEndpoint as From<SocketAddr>>::from, (addr,), listened_on),
        call_ensures(<IpListenEndpoint as From<IpEndpoint>>::from, (endpoint,), exactly),
    ensures
        points_to(endpoint, addr),
        listened_on.addr == Some(endpoint.addr),
        listened_on.port == endpoint.port,
        exactly == listened_on,
{
}

/// An endpoint that is written as a socket address and read back is the same.
pub proof fn an_endpoint_is_read_back(endpoint: &IpEndpoint, addr: SocketAddr, back: IpEndpoint)
    requires
        call_ensures(ep2sa, (endpoint,), addr),
        call_ensures(<IpEndpoint as From<SocketAddr>>::from, (addr,), back),
    ensures
        back == *endpoint,
{
}

/// An error has the kind and the message that it was made with, or no message.
pub proof fn an_error_is_what_it_was_made_of(
    kind: ErrorKind,
    message: &str,
    saying: Error,
    bare: Error,
)
    requires
        call_ensures(Error::new, (kind, message), saying),
        call_ensures(Error::bare, (kind,), bare),
    ensures
        says(saying, kind, message@),
        bare.kind == kind,
        bare.message is None,
{
}

/// Whatever is reported, the error is of kind `Other` and says what the refusal says of itself.
pub proof fn a_report_says_what_the_refusal_says<E: Refusal>(e: E, words: &str, r: Error)
    requires
        call_ensures(E::describe, (&e,), words),
        call_ensures(map_err::<E>, (e,), r),
    ensures
        says(r, ErrorKind::Other, words@),
{
}

/// An error describes itself by its message, and by the words for its kind where it has none.
pub proof fn an_error_describes_itself(e: &Error, words: &str, kind: &ErrorKind, kind_words: &str)
    requires
        *kind == e.kind,
        call_ensures(<Error as Refusal>::describe, (e,), words),
        call_ensures(ErrorKind::describe, (kind,), kind_words),
    ensures
        match e.message {
            Some(message) => words@ == message@,
            None => words@ == kind_words@,
        },
        kind_words@ == match *kind {
            ErrorKind::Other => "other error"@,
            ErrorKind::AddrNotAvailable => "address not available"@,
            ErrorKind::ConnectionAborted => "connection aborted"@,
            ErrorKind::ConnectionReset => "connection reset"@,
            ErrorKind::BrokenPipe => "broken pipe"@,
        },
{
}

/// The reasons of TCP sockets in words.
pub proof fn the_reasons_of_tcp_sockets(
    listen: &tcp_layer::ListenError,
    connect: &tcp_layer::ConnectError,
    send: &tcp_layer::SendError,
    recv: &tcp_layer::RecvError,
    words: (&str, &str, &str, &str),
)
    requires
        call_ensures(<tcp_layer::ListenError as Refusal>::describe, (listen,), words.0),
        call_ensures(<tcp_layer::ConnectError as Refusal>::describe, (connect,), words.1),
        call_ensures(<tcp_layer::SendError as Refusal>::describe, (send,), words.2),
        call_ensures(<tcp_layer::RecvError as Refusal>::describe, (recv,), words.3),
    ensures
        words.0@ == match *listen {
            tcp_layer::ListenError::InvalidState => "invalid state"@,
            tcp_layer::ListenError::Unaddressable => "unaddressable destination"@,
        },
        words.1@ == match *connect {
            tcp_layer::ConnectError::InvalidState => "invalid state"@,
            tcp_layer::ConnectError::Unaddressable => "unaddressable destination"@,
        },
        words.2@ == "invalid state"@,
        words.3@ == match *recv {
            tcp_layer::RecvError::InvalidState => "invalid state"@,
            tcp_layer::RecvError::Finished => "operation finished"@,
        },
{
}

/// The reasons of UDP sockets in words.
pub proof fn the_reasons_of_udp_sockets(
    bind: &udp_layer::BindError,
    send: &udp_layer::SendError,
    recv: &udp_layer::RecvError,
    words: (&str, &str, &str),
)
    requires
        call_ensures(<udp_layer::BindError as Refusal>::describe, (bind,), words.0),
        call_ensures(<udp_layer::SendError as Refusal>::describe, (send,), words.1),
        call_ensures(<udp_layer::RecvError as Refusal>::describe, (recv,), words.2),
    ensures
        words.0@ == match *bind {
            udp_layer::BindError::InvalidState => "invalid state"@,
            udp_layer::BindError::Unaddressable => "unaddressable"@,
        },
        words.1@ == match *send {
            udp_layer::SendError::Unaddressable => "unaddressable"@,
            udp_layer::SendError::BufferFull => "buffer full"@,
        },
        words.2@ == match *recv {
            udp_layer::RecvError::Exhausted => "exhausted"@,
            udp_layer::RecvError::Truncated => "truncated"@,
        },
{
}

/// The reasons of raw sockets in words.
pub proof fn the_reasons_of_raw_sockets(
    send: &raw_layer::SendError,
    recv: &raw_layer::RecvError,
    words: (&str, &str),
)
    requires
        call_ensures(<raw_layer::SendError as Refusal>::describe, (send,), words.0),
        call_ensures(<raw_layer::RecvError as Refusal>::describe, (recv,), words.1),
    ensures
        words.0@ == "buffer full"@,
        words.1@ == match *recv {
            raw_layer::RecvError::Exhausted => "exhausted"@,
            raw_layer::RecvError::Truncated => "truncated"@,
        },
{
}

} // verus!

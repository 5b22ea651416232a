//! Addresses and endpoints, as plain values.
use vstd::prelude::*;

verus! {

/// An IP address, by the number that its octets spell in network order.
#[derive(Debug, Clone, Copy, PartialEq, Eq, Structural)]
pub enum IpAddr {
    V4(u32),
    V6(u128),
}

impl IpAddr {
    /// Whether this is `0.0.0.0` or `::`.
    pub open spec fn unspecified(self) -> bool {
        match self {
            IpAddr::V4(bits) => bits == 0,
            IpAddr::V6(bits) => bits == 0,
        }
    }

    /// Whether two addresses belong to the same version of IP.
    pub open spec fn same_version(self, other: IpAddr) -> bool {
        self is V4 <==> other is V4
    }
}

/// An address and a port, as the stack names one end of a conversation.
#[derive(Debug, Clone, Copy, PartialEq, Eq, Structural)]
pub struct IpEndpoint {
    pub addr: IpAddr,
    pub port: u16,
}

/// What a socket listens on or is bound to: without an address, every local address.
#[derive(Debug, Clone, Copy, PartialEq, Eq)]
pub struct IpListenEndpoint {
    pub addr: Option<IpAddr>,
    pub port: u16,
}

impl IpListenEndpoint {
    /// What a socket that is neither bound nor listening has.
    pub open spec fn nowhere() -> IpListenEndpoint {
        IpListenEndpoint { addr: None, port: 0 }
    }
}

/// A socket address of version 4.
#[derive(Debug, Clone, Copy, PartialEq, Eq, Structural)]
pub struct SocketAddrV4 {
    pub ip: u32,
    pub port: u16,
}

/// A socket address of version 6, with its flow label and scope.
#[derive(Debug, Clone, Copy, PartialEq, Eq, Structural)]
pub struct SocketAddrV6 {
    pub ip: u128,
    pub port: u16,
    pub flowinfo: u32,
    pub scope_id: u32,
}

/// A socket address.
#[derive(Debug, Clone, Copy, PartialEq, Eq, Structural)]
pub enum SocketAddr {
    V4(SocketAddrV4),
    V6(SocketAddrV6),
}

impl SocketAddr {
    /// The address part.
    pub open spec fn ip_spec(self) -> IpAddr {
        match self {
            SocketAddr::V4(v4) => IpAddr::V4(v4.ip),
            SocketAddr::V6(v6) => IpAddr::V6(v6.ip),
        }
    }

    /// The port part.
    pub open spec fn port_spec(self) -> u16 {
        match self {
            SocketAddr::V4(v4) => v4.port,
            SocketAddr::V6(v6) => v6.port,
        }
    }

    /// Whether address and port are all that this socket address says.
    pub open spec fn is_plain(self) -> bool {
        self matches SocketAddr::V6(v6) ==> v6.flowinfo == 0 && v6.scope_id == 0
    }

    /// The socket address of an address and a port, without flow label or scope.
    pub open spec fn of(addr: IpAddr, port: u16) -> SocketAddr {
        match addr {
            IpAddr::V4(ip) => SocketAddr::V4(SocketAddrV4 { ip, port }),
            IpAddr::V6(ip) => SocketAddr::V6(
                SocketAddrV6 { ip, port, flowinfo: 0, scope_id: 0 },
            ),
        }
    }

    /// Puts an address and a port together, without flow label or scope.
    pub fn new(addr: IpAddr, port: u16) -> (r: SocketAddr)
        ensures
            r == SocketAddr::of(addr, port),
    {
        match addr {
            IpAddr::V4(ip) => SocketAddr::V4(SocketAddrV4 { ip, port }),
            IpAddr::V6(ip) => SocketAddr::V6(
                SocketAddrV6 { ip, port, flowinfo: 0, scope_id: 0 },
            ),
        }
    }

    /// The address part.
    pub fn ip(&self) -> (r: IpAddr)
        ensures
            r == self.ip_spec(),
    {
        match self {
            SocketAddr::V4(v4) => IpAddr::V4(v4.ip),
            SocketAddr::V6(v6) => IpAddr::V6(v6.ip),
        }
    }

    /// The port part.
    pub fn port(&self) -> (r: u16)
        ensures
            r == self.port_spec(),
    {
        match self {
            SocketAddr::V4(v4) => v4.port,
            SocketAddr::V6(v6) => v6.port,
        }
    }
}

/// The endpoint that a socket address names.
pub open spec fn endpoint_of(addr: SocketAddr) -> IpEndpoint {
    IpEndpoint { addr: addr.ip_spec(), port: addr.port_spec() }
}

/// The endpoint to listen on for exactly the given one.
pub open spec fn listening_at(endpoint: IpEndpoint) -> IpListenEndpoint {
    IpListenEndpoint { addr: Some(endpoint.addr), port: endpoint.port }
}

impl vstd::std_specs::convert::FromSpecImpl<SocketAddr> for IpEndpoint {
    open spec fn obeys_from_spec() -> bool {
        true
    }

    open spec fn from_spec(addr: SocketAddr) -> IpEndpoint {
        endpoint_of(addr)
    }
}

impl From<SocketAddr> for IpEndpoint {
    fn from(addr: SocketAddr) -> IpEndpoint {
        IpEndpoint { addr: addr.ip(), port: addr.port() }
    }
}

impl vstd::std_specs::convert::FromSpecImpl<IpEndpoint> for IpListenEndpoint {
    open spec fn obeys_from_spec() -> bool {
        true
    }

    open spec fn from_spec(endpoint: IpEndpoint) -> IpListenEndpoint {
        listening_at(endpoint)
    }
}

impl From<IpEndpoint> for IpListenEndpoint {
    fn from(endpoint: IpEndpoint) -> IpListenEndpoint {
        IpListenEndpoint { addr: Some(endpoint.addr), port: endpoint.port }
    }
}

impl vstd::std_specs::convert::FromSpecImpl<SocketAddr> for IpListenEndpoint {
    open spec fn obeys_from_spec() -> bool {
        true
    }

    open spec fn from_spec(addr: SocketAddr) -> IpListenEndpoint {
        listening_at(endpoint_of(addr))
    }
}

impl From<SocketAddr> for IpListenEndpoint {
    fn from(addr: SocketAddr) -> IpListenEndpoint {
        IpListenEndpoint { addr: Some(addr.ip()), port: addr.port() }
    }
}

/// The socket address of an endpoint.
pub fn ep2sa(ep: &IpEndpoint) -> (r: SocketAddr)
    ensures
        r == SocketAddr::of(ep.addr, ep.port),
{
    match ep.addr {
        IpAddr::V4(v4) => SocketAddr::new(IpAddr::V4(v4), ep.port),
        IpAddr::V6(v6) => SocketAddr::new(IpAddr::V6(v6), ep.port),
    }
}

} // verus!

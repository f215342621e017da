//! IP addresses and socket addresses.
use vstd::prelude::*;

verus! {

/// An IP address, as its octets in network order.
#[derive(Debug, Clone, Copy, PartialEq, Eq)]
pub enum IpAddr {
    V4([u8; 4]),
    V6([u8; 16]),
}

/// The version of the Internet Protocol.
#[derive(Debug, Clone, Copy, PartialEq, Eq, Structural)]
pub enum IpVersion {
    V4,
    V6,
}

impl IpAddr {
    /// The octets of the address.
    pub open spec fn octets(self) -> Seq<u8> {
        match self {
            IpAddr::V4(octets) => octets@,
            IpAddr::V6(octets) => octets@,
        }
    }

    /// The version that the address belongs to.
    pub open spec fn version(self) -> IpVersion {
        match self {
            IpAddr::V4(_) => IpVersion::V4,
            IpAddr::V6(_) => IpVersion::V6,
        }
    }
}

/// The address of the given version with the given octets.
pub open spec fn address(version: IpVersion, octets: Seq<u8>) -> IpAddr {
    choose|addr: IpAddr| addr.version() == version && addr.octets() == octets
}

/// Every address is the one of its version with its octets.
pub proof fn lemma_address(addr: IpAddr)
    ensures
        address(addr.version(), addr.octets()) == addr,
{
    lemma_address_is_its_octets(address(addr.version(), addr.octets()), addr);
}

/// An address is known by its version and its octets.
pub proof fn lemma_address_is_its_octets(a: IpAddr, b: IpAddr)
    requires
        a.version() == b.version(),
        a.octets() == b.octets(),
    ensures
        a == b,
{
    match (a, b) {
        (IpAddr::V4(x), IpAddr::V4(y)) => {
            assert(x =~= y);
        },
        (IpAddr::V6(x), IpAddr::V6(y)) => {
            assert(x =~= y);
        },
        _ => {},
    }
}

/// An IPv4 address with a port.
#[derive(Debug, Clone, Copy, PartialEq, Eq)]
pub struct SocketAddrV4 {
    pub ip: [u8; 4],
    pub port: u16,
}

/// An IPv6 address with a port, flow information and a scope.
#[derive(Debug, Clone, Copy, PartialEq, Eq)]
pub struct SocketAddrV6 {
    pub ip: [u8; 16],
    pub port: u16,
    pub flowinfo: u32,
    pub scope_id: u32,
}

/// One end of a connection or of a datagram's path.
#[derive(Debug, Clone, Copy, PartialEq, Eq)]
pub enum SocketAddr {
    V4(SocketAddrV4),
    V6(SocketAddrV6),
}

impl SocketAddr {
    /// The address of a socket at `ip` and `port`, with no flow information and
    /// no scope.
    pub open spec fn at(ip: IpAddr, port: u16) -> SocketAddr {
        match ip {
            IpAddr::V4(octets) => SocketAddr::V4(SocketAddrV4 { ip: octets, port }),
            IpAddr::V6(octets) => SocketAddr::V6(
                SocketAddrV6 { ip: octets, port, flowinfo: 0, scope_id: 0 },
            ),
        }
    }

    /// The IP address part.
    pub open spec fn ip_part(self) -> IpAddr {
        match self {
            SocketAddr::V4(a) => IpAddr::V4(a.ip),
            SocketAddr::V6(a) => IpAddr::V6(a.ip),
        }
    }

    /// The port part.
    pub open spec fn port_part(self) -> u16 {
        match self {
            SocketAddr::V4(a) => a.port,
            SocketAddr::V6(a) => a.port,
        }
    }

    /// Creates the address of a socket at `ip` and `port`.
    pub fn new(ip: IpAddr, port: u16) -> (addr: SocketAddr)
        ensures
            addr == SocketAddr::at(ip, port),
            addr.ip_part() == ip,
            addr.port_part() == port,
    {
        match ip {
            IpAddr::V4(octets) => SocketAddr::V4(SocketAddrV4 { ip: octets, port }),
            IpAddr::V6(octets) => SocketAddr::V6(
                SocketAddrV6 { ip: octets, port, flowinfo: 0, scope_id: 0 },
            ),
        }
    }

    /// The IP address of the socket.
    pub fn ip(&self) -> (ip: IpAddr)
        ensures
            ip == self.ip_part(),
    {
        match self {
            SocketAddr::V4(a) => IpAddr::V4(a.ip),
            SocketAddr::V6(a) => IpAddr::V6(a.ip),
        }
    }

    /// The port of the socket.
    pub fn port(&self) -> (port: u16)
        ensures
            port == self.port_part(),
    {
        match self {
            SocketAddr::V4(a) => a.port,
            SocketAddr::V6(a) => a.port,
        }
    }
}

} // verus!

//! IP addresses and endpoints, as the socket layer reads them.
use vstd::prelude::*;

verus! {

/// An IPv4 or IPv6 address, held as its octets in network byte order.
#[derive(Debug, Clone, Copy, PartialEq, Eq)]
pub enum IpAddress {
    Ipv4([u8; 4]),
    Ipv6([u8; 16]),
}

/// An address and a port.
#[derive(Debug, Clone, Copy, PartialEq, Eq)]
pub struct IpEndpoint {
    pub addr: IpAddress,
    pub port: u16,
}

/// The endpoint a socket listens on: an optional address and a port.
#[derive(Debug, Clone, Copy, PartialEq, Eq)]
pub struct IpListenEndpoint {
    pub addr: Option<IpAddress>,
    pub port: u16,
}

/// Whether two byte arrays of the same length hold the same bytes.
pub fn bytes_equal<const N: usize>(a: &[u8; N], b: &[u8; N]) -> (r: bool)
    ensures
        r == (*a == *b),
{
    let mut i: usize = 0;
    while i < N
        invariant
            0 <= i <= N,
            a@.len() == N,
            b@.len() == N,
            forall|j: int| 0 <= j < i ==> a@[j] == b@[j],
        decreases N - i,
    {
        if a[i] != b[i] {
            return false;
        }
        i = i + 1;
    }
    proof {
        broadcast use vstd::array::axiom_array_ext_equal;
        assert(*a =~= *b);
    }
    true
}

/// The IPv6 prefix of an IPv4-mapped address: ten zero octets, then two 0xff.
pub open spec fn ipv4_mapped_prefix(b: Seq<u8>) -> bool {
    &&& forall|i: int| 0 <= i < 10 ==> b[i] == 0u8
    &&& b[10] == 0xffu8
    &&& b[11] == 0xffu8
}

/// Whether all octets are zero.
pub open spec fn all_zero(b: Seq<u8>) -> bool {
    forall|i: int| 0 <= i < b.len() ==> b[i] == 0u8
}

impl IpAddress {
    /// The octets of the address in network byte order.
    pub open spec fn octets(self) -> Seq<u8> {
        match self {
            IpAddress::Ipv4(a) => a@,
            IpAddress::Ipv6(a) => a@,
        }
    }

    /// An IPv4 address is unspecified when its first octet is zero (the
    /// whole 0.0.0.0/8 range); an IPv6 address when all octets are zero.
    pub open spec fn unspecified(self) -> bool {
        match self {
            IpAddress::Ipv4(a) => a@[0] == 0u8,
            IpAddress::Ipv6(a) => all_zero(a@),
        }
    }

    /// Whether the address falls into the unspecified range.
    pub fn is_unspecified(&self) -> (r: bool)
        ensures
            r == self.unspecified(),
    {
        match self {
            IpAddress::Ipv4(a) => a[0] == 0,
            IpAddress::Ipv6(a) => {
                let mut i: usize = 0;
                while i < 16
                    invariant
                        0 <= i <= 16,
                        a@.len() == 16,
                        *self == IpAddress::Ipv6(*a),
                        forall|j: int| 0 <= j < i ==> a@[j] == 0u8,
                    decreases 16 - i,
                {
                    if a[i] != 0 {
                        assert(a@[i as int] != 0u8);
                        assert(!all_zero(a@));
                        return false;
                    }
                    i = i + 1;
                }
                true
            },
        }
    }

    /// Whether two addresses are the same address.
    pub fn equals(&self, other: &IpAddress) -> (r: bool)
        ensures
            r == (*self == *other),
    {
        match (self, other) {
            (IpAddress::Ipv4(a), IpAddress::Ipv4(b)) => bytes_equal(a, b),
            (IpAddress::Ipv6(a), IpAddress::Ipv6(b)) => bytes_equal(a, b),
            _ => false,
        }
    }
}

/// Whether an IPv6 address is IPv4-mapped (`::ffff:a.b.c.d`).
pub fn ipv6_is_ipv4_mapped(a: &[u8; 16]) -> (r: bool)
    ensures
        r == ipv4_mapped_prefix(a@),
{
    let mut i: usize = 0;
    while i < 10
        invariant
            0 <= i <= 10,
            a@.len() == 16,
            forall|j: int| 0 <= j < i ==> a@[j] == 0u8,
        decreases 10 - i,
    {
        if a[i] != 0 {
            return false;
        }
        i = i + 1;
    }
    a[10] == 0xff && a[11] == 0xff
}

impl IpEndpoint {
    /// An endpoint from an address and a port.
    pub fn new(addr: IpAddress, port: u16) -> (r: IpEndpoint)
        ensures
            r == (IpEndpoint { addr, port }),
    {
        IpEndpoint { addr, port }
    }

    /// Whether two endpoints have the same address and port.
    pub fn equals(&self, other: &IpEndpoint) -> (r: bool)
        ensures
            r == (*self == *other),
    {
        self.port == other.port && self.addr.equals(&other.addr)
    }
}

impl IpListenEndpoint {
    /// Whether two listen endpoints have the same address (or both none)
    /// and the same port.
    pub fn equals(&self, other: &IpListenEndpoint) -> (r: bool)
        ensures
            r == (*self == *other),
    {
        if self.port != other.port {
            return false;
        }
        match (&self.addr, &other.addr) {
            (Some(a), Some(b)) => a.equals(b),
            (None, None) => true,
            _ => false,
        }
    }
}

/// The unspecified IPv4 address 0.0.0.0.
pub open spec fn unspecified_ipv4_spec() -> IpAddress {
    IpAddress::Ipv4([0u8, 0u8, 0u8, 0u8])
}

/// The unspecified IPv6 address `::`.
pub open spec fn unspecified_ipv6_spec() -> IpAddress {
    IpAddress::Ipv6([0u8, 0u8, 0u8, 0u8, 0u8, 0u8, 0u8, 0u8, 0u8, 0u8, 0u8, 0u8, 0u8, 0u8, 0u8, 0u8])
}

/// The unspecified IPv4 address 0.0.0.0.
pub fn unspecified_ipv4() -> (r: IpAddress)
    ensures
        r == unspecified_ipv4_spec(),
{
    IpAddress::Ipv4([0u8, 0u8, 0u8, 0u8])
}

/// The unspecified IPv4 address with port 0.
pub fn unspecified_ipv4_endpoint() -> (r: IpEndpoint)
    ensures
        r == (IpEndpoint { addr: unspecified_ipv4_spec(), port: 0 }),
{
    IpEndpoint { addr: unspecified_ipv4(), port: 0 }
}

/// The unspecified IPv6 address `::`.
pub fn unspecified_ipv6() -> (r: IpAddress)
    ensures
        r == unspecified_ipv6_spec(),
{
    IpAddress::Ipv6([0u8, 0u8, 0u8, 0u8, 0u8, 0u8, 0u8, 0u8, 0u8, 0u8, 0u8, 0u8, 0u8, 0u8, 0u8, 0u8])
}

/// The unspecified IPv6 address with port 0.
pub fn unspecified_ipv6_endpoint() -> (r: IpEndpoint)
    ensures
        r == (IpEndpoint { addr: unspecified_ipv6_spec(), port: 0 }),
{
    IpEndpoint { addr: unspecified_ipv6(), port: 0 }
}

/// The local IPv4 address as this stack names it, 127.0.0.0.
pub fn local_ipv4() -> (r: IpAddress)
    ensures
        r == IpAddress::Ipv4([127u8, 0u8, 0u8, 0u8]),
{
    IpAddress::Ipv4([127u8, 0u8, 0u8, 0u8])
}

/// The local IPv4 address with port 0.
pub fn local_ipv4_endpoint() -> (r: IpEndpoint)
    ensures
        r == (IpEndpoint { addr: IpAddress::Ipv4([127u8, 0u8, 0u8, 0u8]), port: 0 }),
{
    IpEndpoint { addr: local_ipv4(), port: 0 }
}

/// The listen endpoint with no address and port 0.
pub fn unspecified_listen_endpoint() -> (r: IpListenEndpoint)
    ensures
        r == (IpListenEndpoint { addr: None, port: 0 }),
{
    IpListenEndpoint { addr: None, port: 0 }
}

/// The endpoint of a listen endpoint that has an address.
pub fn to_ipendpoint(iplistenendpoint: IpListenEndpoint) -> (r: IpEndpoint)
    requires
        iplistenendpoint.addr is Some,
    ensures
        r == (IpEndpoint { addr: iplistenendpoint.addr->Some_0, port: iplistenendpoint.port }),
{
    let ip = iplistenendpoint.addr.unwrap();
    IpEndpoint::new(ip, iplistenendpoint.port)
}

} // verus!

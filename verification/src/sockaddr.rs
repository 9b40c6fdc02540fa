//! Socket addresses as user programs pass them (`sockaddr_in`,
//! `sockaddr_in6`, `sockaddr_un`), their text, and their conversion to and
//! from endpoints.
use vstd::prelude::*;
use crate::endpoint::{IpAddress, IpEndpoint, IpListenEndpoint};
use crate::text::{
    decimal, hexadecimal, push_decimal, push_hexadecimal, string_from_utf8_lossy, utf8_lossy,
};

verus! {

/// An IPv4 socket address.
#[derive(Debug, Clone, Copy)]
pub struct SockAddrIn {
    /// `AF_INET` (2) for this kind of address
    pub family: u16,
    /// port in network byte order
    pub port: [u8; 2],
    /// address in network byte order
    pub addr: [u8; 4],
    pub zero: [u8; 8],
}

/// An IPv6 socket address.
#[derive(Debug, Clone, Copy)]
pub struct SockAddrIn6 {
    pub family: u16,
    pub addr: [u8; 16],
    pub port: [u8; 2],
    pub flowinfo: u32,
    pub scope: u32,
}

/// A Unix-domain socket address: a path of up to 100 bytes, ended by the
/// first zero byte.
#[derive(Debug, Clone, Copy)]
pub struct SockAddrUn {
    pub family: u16,
    pub path: [u8; 100],
}

/// A socket address of one of the three kinds.
#[derive(Debug, Clone, Copy)]
pub enum SocketAddr {
    Unix(SockAddrUn),
    Inet(SockAddrIn),
    Inet6(SockAddrIn6),
}

/// The number that two bytes in network (big-endian) byte order hold.
pub open spec fn be_u16(b: [u8; 2]) -> u16 {
    (b[0] as int * 256 + b[1] as int) as u16
}

/// `u16::from_be_bytes`.
pub fn u16_from_be_bytes(b: [u8; 2]) -> (r: u16)
    ensures
        r == be_u16(b),
        r == b[0] as int * 256 + b[1] as int,
{
    (b[0] as u16) * 256 + (b[1] as u16)
}

/// `u16::to_be_bytes`.
pub fn u16_to_be_bytes(v: u16) -> (r: [u8; 2])
    ensures
        r == be_bytes(v),
        r[0] == v / 256,
        r[1] == v % 256,
        be_u16(r) == v,
{
    [(v / 256) as u8, (v % 256) as u8]
}

impl From<SockAddrIn> for IpListenEndpoint {
    fn from(value: SockAddrIn) -> (r: IpListenEndpoint) {
        IpListenEndpoint {
            addr: Some(IpAddress::Ipv4(value.addr)),
            port: u16_from_be_bytes(value.port),
        }
    }
}

impl vstd::std_specs::convert::FromSpecImpl<SockAddrIn> for IpListenEndpoint {
    open spec fn obeys_from_spec() -> bool {
        true
    }

    open spec fn from_spec(v: SockAddrIn) -> IpListenEndpoint {
        IpListenEndpoint { addr: Some(IpAddress::Ipv4(v.addr)), port: be_u16(v.port) }
    }
}

impl From<SockAddrIn6> for IpListenEndpoint {
    fn from(value: SockAddrIn6) -> (r: IpListenEndpoint) {
        IpListenEndpoint {
            addr: Some(IpAddress::Ipv6(value.addr)),
            port: u16_from_be_bytes(value.port),
        }
    }
}

impl vstd::std_specs::convert::FromSpecImpl<SockAddrIn6> for IpListenEndpoint {
    open spec fn obeys_from_spec() -> bool {
        true
    }

    open spec fn from_spec(v: SockAddrIn6) -> IpListenEndpoint {
        IpListenEndpoint { addr: Some(IpAddress::Ipv6(v.addr)), port: be_u16(v.port) }
    }
}

impl From<SockAddrIn> for IpEndpoint {
    fn from(value: SockAddrIn) -> (r: IpEndpoint) {
        IpEndpoint::new(IpAddress::Ipv4(value.addr), u16_from_be_bytes(value.port))
    }
}

impl vstd::std_specs::convert::FromSpecImpl<SockAddrIn> for IpEndpoint {
    open spec fn obeys_from_spec() -> bool {
        true
    }

    open spec fn from_spec(v: SockAddrIn) -> IpEndpoint {
        IpEndpoint { addr: IpAddress::Ipv4(v.addr), port: be_u16(v.port) }
    }
}

impl From<SockAddrIn6> for IpEndpoint {
    fn from(value: SockAddrIn6) -> (r: IpEndpoint) {
        IpEndpoint::new(IpAddress::Ipv6(value.addr), u16_from_be_bytes(value.port))
    }
}

impl vstd::std_specs::convert::FromSpecImpl<SockAddrIn6> for IpEndpoint {
    open spec fn obeys_from_spec() -> bool {
        true
    }

    open spec fn from_spec(v: SockAddrIn6) -> IpEndpoint {
        IpEndpoint { addr: IpAddress::Ipv6(v.addr), port: be_u16(v.port) }
    }
}

impl IpEndpoint {
    /// The `sockaddr_in` of an IPv4 endpoint.
    pub fn into_sockaddr_in(self) -> (r: SockAddrIn)
        requires
            self.addr is Ipv4,
        ensures
            r.family == 2,
            r.addr == self.addr->Ipv4_0,
            be_u16(r.port) == self.port,
            crate::endpoint::all_zero(r.zero@),
            SocketAddr::Inet(r) == sockaddr_of(self),
    {
        match self.addr {
            IpAddress::Ipv4(ip) => SockAddrIn {
                family: 2,
                port: u16_to_be_bytes(self.port),
                addr: ip,
                zero: [0u8, 0u8, 0u8, 0u8, 0u8, 0u8, 0u8, 0u8],
            },
            IpAddress::Ipv6(_) => {
                proof {
                    assert(false);
                }
                SockAddrIn {
                    family: 2,
                    port: u16_to_be_bytes(self.port),
                    addr: [0u8, 0u8, 0u8, 0u8],
                    zero: [0u8, 0u8, 0u8, 0u8, 0u8, 0u8, 0u8, 0u8],
                }
            },
        }
    }

    /// The `sockaddr_in6` of an IPv6 endpoint, with zero flow information
    /// and scope.
    pub fn into_sockaddr_in6(self) -> (r: SockAddrIn6)
        requires
            self.addr is Ipv6,
        ensures
            r.family == 10,
            r.addr == self.addr->Ipv6_0,
            be_u16(r.port) == self.port,
            r.flowinfo == 0,
            r.scope == 0,
            SocketAddr::Inet6(r) == sockaddr_of(self),
    {
        let family: u16 = crate::types::SaFamily::AF_Inet6.into();
        match self.addr {
            IpAddress::Ipv6(ip) => SockAddrIn6 {
                addr: ip,
                family,
                port: u16_to_be_bytes(self.port),
                flowinfo: 0,
                scope: 0,
            },
            IpAddress::Ipv4(_) => {
                proof {
                    assert(false);
                }
                SockAddrIn6 {
                    addr: [0u8, 0u8, 0u8, 0u8, 0u8, 0u8, 0u8, 0u8, 0u8, 0u8, 0u8, 0u8, 0u8, 0u8, 0u8, 0u8],
                    family,
                    port: u16_to_be_bytes(self.port),
                    flowinfo: 0,
                    scope: 0,
                }
            },
        }
    }
}

/// The port of an address, as text.
pub open spec fn port_text(port: [u8; 2]) -> Seq<char> {
    decimal(be_u16(port) as nat)
}

/// The text of an IPv4 socket address: `AF_NET:a.b.c.d:port`.
pub open spec fn sockaddr_in_text(a: SockAddrIn) -> Seq<char> {
    "AF_NET:"@ + decimal(a.addr[0] as nat) + seq!['.'] + decimal(a.addr[1] as nat) + seq!['.']
        + decimal(a.addr[2] as nat) + seq!['.'] + decimal(a.addr[3] as nat) + seq![':']
        + port_text(a.port)
}

/// The `k`-th 16-bit group of an IPv6 address, in network byte order.
pub open spec fn in6_group(addr: Seq<u8>, k: int) -> nat {
    (addr[2 * k] as nat * 256 + addr[2 * k + 1] as nat) as nat
}

/// The first `k` groups of an IPv6 address in lowercase hexadecimal,
/// separated by colons.
pub open spec fn in6_groups_text(addr: Seq<u8>, k: nat) -> Seq<char>
    decreases k,
{
    if k == 0 {
        Seq::empty()
    } else if k == 1 {
        hexadecimal(in6_group(addr, 0))
    } else {
        in6_groups_text(addr, (k - 1) as nat) + seq![':'] + hexadecimal(
            in6_group(addr, k - 1),
        )
    }
}

/// The text of an IPv6 socket address: `AF_NET6:` then the eight groups in
/// hexadecimal, then `:port`.
pub open spec fn sockaddr_in6_text(a: SockAddrIn6) -> Seq<char> {
    "AF_NET6:"@ + in6_groups_text(a.addr@, 8) + seq![':'] + port_text(a.port)
}

/// Whether `pos` is where a zero-terminated path ends: no zero byte before
/// it, and a zero byte at it unless it is the end of the bytes.
pub open spec fn path_end_at(p: Seq<u8>, pos: int) -> bool {
    &&& 0 <= pos <= p.len()
    &&& forall|j: int| 0 <= j < pos ==> p[j] != 0u8
    &&& pos < p.len() ==> p[pos] == 0u8
}

/// Where a zero-terminated path ends.
pub open spec fn path_end(p: Seq<u8>) -> int {
    choose|pos: int| path_end_at(p, pos)
}

/// The text of a Unix socket address: `AF_UNIX:` then the path up to its
/// first zero byte, decoded as UTF-8 with invalid sequences replaced.
pub open spec fn sockaddr_un_text(a: SockAddrUn) -> Seq<char> {
    "AF_UNIX:"@ + utf8_lossy(a.path@.take(path_end(a.path@)))
}

/// At most one position ends a zero-terminated path.
pub proof fn lemma_path_end_unique(p: Seq<u8>, pos1: int, pos2: int)
    requires
        path_end_at(p, pos1),
        path_end_at(p, pos2),
    ensures
        pos1 == pos2,
{
    if pos1 < pos2 {
        assert(p[pos1] == 0u8);
    } else if pos2 < pos1 {
        assert(p[pos2] == 0u8);
    }
}

impl SockAddrIn {
    /// The text of the address, `AF_NET:a.b.c.d:port`.
    pub fn to_string(&self) -> (r: String)
        ensures
            r@ == sockaddr_in_text(*self),
    {
        let mut s = String::new();
        s.append("AF_NET:");
        push_decimal(&mut s, self.addr[0] as u32);
        s.push('.');
        push_decimal(&mut s, self.addr[1] as u32);
        s.push('.');
        push_decimal(&mut s, self.addr[2] as u32);
        s.push('.');
        push_decimal(&mut s, self.addr[3] as u32);
        s.push(':');
        let port = u16_from_be_bytes(self.port);
        push_decimal(&mut s, port as u32);
        assert(s@ =~= sockaddr_in_text(*self));
        s
    }
}

impl SockAddrIn6 {
    /// The text of the address: `AF_NET6:`, the eight 16-bit groups in
    /// lowercase hexadecimal separated by colons, then `:port`.
    pub fn to_string(&self) -> (r: String)
        ensures
            r@ == sockaddr_in6_text(*self),
    {
        let mut s = String::new();
        s.append("AF_NET6:");
        let ghost prefix = s@;
        let mut k: usize = 0;
        while k < 8
            invariant
                0 <= k <= 8,
                self.addr@.len() == 16,
                s@ == prefix + in6_groups_text(self.addr@, k as nat),
            decreases 8 - k,
        {
            if k > 0 {
                s.push(':');
            }
            let group = u16_from_be_bytes([self.addr[2 * k], self.addr[2 * k + 1]]);
            push_hexadecimal(&mut s, group as u32);
            proof {
                assert(group as nat == in6_group(self.addr@, k as int));
                if k == 0 {
                    assert(s@ =~= prefix + in6_groups_text(self.addr@, 1));
                } else {
                    assert(s@ =~= prefix + in6_groups_text(self.addr@, (k + 1) as nat));
                }
            }
            k = k + 1;
        }
        s.push(':');
        let port = u16_from_be_bytes(self.port);
        push_decimal(&mut s, port as u32);
        assert(s@ =~= sockaddr_in6_text(*self));
        s
    }
}

impl SockAddrUn {
    /// The text of the address: `AF_UNIX:` then the path up to its first
    /// zero byte, decoded as UTF-8 with invalid sequences replaced.
    pub fn to_string(&self) -> (r: String)
        ensures
            r@ == sockaddr_un_text(*self),
    {
        let mut bytes: Vec<u8> = Vec::new();
        let mut i: usize = 0;
        while i < 100 && self.path[i] != 0
            invariant
                0 <= i <= 100,
                self.path@.len() == 100,
                bytes@ == self.path@.take(i as int),
                forall|j: int| 0 <= j < i ==> self.path@[j] != 0u8,
            decreases 100 - i,
        {
            bytes.push(self.path[i]);
            i = i + 1;
            assert(bytes@ =~= self.path@.take(i as int));
        }
        proof {
            assert(path_end_at(self.path@, i as int));
            lemma_path_end_unique(self.path@, i as int, path_end(self.path@));
        }
        let mut s = String::new();
        s.append("AF_UNIX:");
        let path = string_from_utf8_lossy(bytes.as_slice());
        s.append(path.as_str());
        s
    }
}

impl SocketAddr {
    /// The address family code that the address carries.
    pub open spec fn family_spec(self) -> u16 {
        match self {
            SocketAddr::Unix(a) => a.family,
            SocketAddr::Inet(a) => a.family,
            SocketAddr::Inet6(a) => a.family,
        }
    }

    /// The address family code that the address carries.
    pub fn family(&self) -> (r: u16)
        ensures
            r == self.family_spec(),
    {
        match self {
            SocketAddr::Unix(a) => a.family,
            SocketAddr::Inet(a) => a.family,
            SocketAddr::Inet6(a) => a.family,
        }
    }

    /// An IP address whose family code names its kind: `AF_INET` (2) for an
    /// IPv4 address, `AF_INET6` (10) for an IPv6 address.
    pub open spec fn is_ip(self) -> bool {
        ||| self matches SocketAddr::Inet(a) && a.family == 2
        ||| self matches SocketAddr::Inet6(a) && a.family == 10
    }

    /// The text of the address, by its family code; an address whose code
    /// is not that of its kind reads `unkown addr family`.
    pub open spec fn text(self) -> Seq<char> {
        match self {
            SocketAddr::Unix(a) => if a.family == 1 {
                sockaddr_un_text(a)
            } else {
                "unkown addr family"@
            },
            SocketAddr::Inet(a) => if a.family == 2 {
                sockaddr_in_text(a)
            } else {
                "unkown addr family"@
            },
            SocketAddr::Inet6(a) => if a.family == 10 {
                sockaddr_in6_text(a)
            } else {
                "unkown addr family"@
            },
        }
    }

    /// The text of the address.
    pub fn to_string(&self) -> (r: String)
        ensures
            r@ == self.text(),
    {
        match self {
            SocketAddr::Unix(a) if a.family == 1 => a.to_string(),
            SocketAddr::Inet(a) if a.family == 2 => a.to_string(),
            SocketAddr::Inet6(a) if a.family == 10 => a.to_string(),
            _ => String::from_str("unkown addr family"),
        }
    }

    /// The endpoint that an IP socket address names.
    pub fn into_endpoint(&self) -> (r: IpEndpoint)
        requires
            self.is_ip(),
        ensures
            r == endpoint_of(*self),
    {
        match self {
            SocketAddr::Inet(a) => IpEndpoint::new(IpAddress::Ipv4(a.addr), u16_from_be_bytes(a.port)),
            SocketAddr::Inet6(a) => IpEndpoint::new(IpAddress::Ipv6(a.addr), u16_from_be_bytes(a.port)),
            SocketAddr::Unix(_) => {
                proof {
                    assert(false);
                }
                IpEndpoint::new(IpAddress::Ipv4([0u8, 0u8, 0u8, 0u8]), 0)
            },
        }
    }

    /// The listen endpoint that an IP socket address names.
    pub fn into_listen_endpoint(&self) -> (r: IpListenEndpoint)
        requires
            self.is_ip(),
        ensures
            r == (IpListenEndpoint { addr: Some(endpoint_of(*self).addr), port: endpoint_of(*self).port }),
    {
        match self {
            SocketAddr::Inet(a) => IpListenEndpoint::from(*a),
            SocketAddr::Inet6(a) => IpListenEndpoint::from(*a),
            SocketAddr::Unix(_) => {
                proof {
                    assert(false);
                }
                IpListenEndpoint { addr: None, port: 0 }
            },
        }
    }

    /// The socket address of an endpoint: `sockaddr_in` for IPv4,
    /// `sockaddr_in6` for IPv6.
    pub fn from_endpoint(endpoint: IpEndpoint) -> (r: SocketAddr)
        ensures
            r == sockaddr_of(endpoint),
    {
        match endpoint.addr {
            IpAddress::Ipv4(_) => SocketAddr::Inet(endpoint.into_sockaddr_in()),
            IpAddress::Ipv6(_) => SocketAddr::Inet6(endpoint.into_sockaddr_in6()),
        }
    }
}

/// The endpoint that an IP socket address names.
pub open spec fn endpoint_of(a: SocketAddr) -> IpEndpoint {
    match a {
        SocketAddr::Inet(s) => IpEndpoint { addr: IpAddress::Ipv4(s.addr), port: be_u16(s.port) },
        SocketAddr::Inet6(s) => IpEndpoint { addr: IpAddress::Ipv6(s.addr), port: be_u16(s.port) },
        SocketAddr::Unix(_) => IpEndpoint { addr: IpAddress::Ipv4([0u8, 0u8, 0u8, 0u8]), port: 0 },
    }
}

/// The two bytes of a number in network (big-endian) byte order.
pub open spec fn be_bytes(v: u16) -> [u8; 2] {
    [(v / 256) as u8, (v % 256) as u8]
}

/// The socket address of an endpoint: a `sockaddr_in` with zero padding for
/// an IPv4 endpoint, a `sockaddr_in6` with zero flow information and scope
/// for an IPv6 endpoint.
pub open spec fn sockaddr_of(e: IpEndpoint) -> SocketAddr {
    match e.addr {
        IpAddress::Ipv4(a) => SocketAddr::Inet(
            SockAddrIn {
                family: 2,
                port: be_bytes(e.port),
                addr: a,
                zero: [0u8, 0u8, 0u8, 0u8, 0u8, 0u8, 0u8, 0u8],
            },
        ),
        IpAddress::Ipv6(a) => SocketAddr::Inet6(
            SockAddrIn6 { family: 10, addr: a, port: be_bytes(e.port), flowinfo: 0, scope: 0 },
        ),
    }
}

/// Whether the fields of an IP socket address that name no part of the
/// endpoint are zero: the padding of a `sockaddr_in`, the flow information
/// and scope of a `sockaddr_in6`.
pub open spec fn unused_fields_zero(a: SocketAddr) -> bool {
    match a {
        SocketAddr::Inet(s) => crate::endpoint::all_zero(s.zero@),
        SocketAddr::Inet6(s) => s.flowinfo == 0 && s.scope == 0,
        SocketAddr::Unix(_) => true,
    }
}

/// An endpoint made into a socket address and read back is the same
/// endpoint, and that socket address is an IP address of the endpoint's
/// kind; an IP socket address whose unused fields are zero, read as an
/// endpoint and made into a socket address again, is the same address.
pub proof fn lemma_endpoint_sockaddr_roundtrip(e: IpEndpoint, a: SocketAddr)
    ensures
        sockaddr_of(e).is_ip(),
        endpoint_of(sockaddr_of(e)) == e,
        a.is_ip() && unused_fields_zero(a) ==> sockaddr_of(endpoint_of(a)) == a,
{
    broadcast use vstd::array::axiom_array_ext_equal;
    let p = e.port;
    assert(be_u16(be_bytes(p)) == p) by {
        assert(be_bytes(p)[0] == p / 256);
        assert(be_bytes(p)[1] == p % 256);
    }
    if a.is_ip() && unused_fields_zero(a) {
        match a {
            SocketAddr::Inet(s) => {
                let q = be_u16(s.port);
                assert(be_bytes(q) =~= s.port);
                assert(s.zero =~= [0u8, 0u8, 0u8, 0u8, 0u8, 0u8, 0u8, 0u8]);
            },
            SocketAddr::Inet6(s) => {
                let q = be_u16(s.port);
                assert(be_bytes(q) =~= s.port);
            },
            SocketAddr::Unix(_) => {},
        }
    }
}

} // verus!

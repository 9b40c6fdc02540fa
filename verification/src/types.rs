//! Socket families, types, levels and options, and their numeric codes.
use vstd::prelude::*;
use crate::error::SysError;

verus! {

/// Address family of a socket.
#[allow(non_camel_case_types)]
#[derive(Debug, Clone, Copy, PartialEq, Eq, Structural)]
pub enum SaFamily {
    AF_Unix,
    /// IPv4
    AF_Inet,
    /// IPv6
    AF_Inet6,
}

impl SaFamily {
    /// The numeric code of the family.
    pub open spec fn code(self) -> u16 {
        match self {
            SaFamily::AF_Unix => 1,
            SaFamily::AF_Inet => 2,
            SaFamily::AF_Inet6 => 10,
        }
    }

    /// The family named by a numeric code, or `EINVAL`.
    pub open spec fn from_code(v: u16) -> Result<SaFamily, SysError> {
        if v == 1 {
            Ok(SaFamily::AF_Unix)
        } else if v == 2 {
            Ok(SaFamily::AF_Inet)
        } else if v == 10 {
            Ok(SaFamily::AF_Inet6)
        } else {
            Err(SysError::EINVAL)
        }
    }
}

impl TryFrom<u16> for SaFamily {
    type Error = SysError;

    fn try_from(value: u16) -> (r: Result<SaFamily, SysError>) {
        match value {
            1 => Ok(SaFamily::AF_Unix),
            2 => Ok(SaFamily::AF_Inet),
            10 => Ok(SaFamily::AF_Inet6),
            _ => Err(SysError::EINVAL),
        }
    }
}

impl vstd::std_specs::convert::TryFromSpecImpl<u16> for SaFamily {
    open spec fn obeys_try_from_spec() -> bool {
        true
    }

    open spec fn try_from_spec(v: u16) -> Result<SaFamily, SysError> {
        SaFamily::from_code(v)
    }
}

impl From<SaFamily> for u16 {
    fn from(value: SaFamily) -> (r: u16) {
        match value {
            SaFamily::AF_Unix => 1,
            SaFamily::AF_Inet => 2,
            SaFamily::AF_Inet6 => 10,
        }
    }
}

impl vstd::std_specs::convert::FromSpecImpl<SaFamily> for u16 {
    open spec fn obeys_from_spec() -> bool {
        true
    }

    open spec fn from_spec(v: SaFamily) -> u16 {
        v.code()
    }
}


/// Socket type, which fixes the transmission semantics.
#[derive(Debug, Clone, Copy, PartialEq, Eq, Structural)]
pub enum SocketType {
    STREAM,
    DGRAM,
    RAW,
    RDM,
    SEQPACKET,
    DCCP,
    PACKET,
}

impl SocketType {
    /// The numeric code of the socket type.
    pub open spec fn code(self) -> u16 {
        match self {
            SocketType::STREAM => 1,
            SocketType::DGRAM => 2,
            SocketType::RAW => 3,
            SocketType::RDM => 4,
            SocketType::SEQPACKET => 5,
            SocketType::DCCP => 6,
            SocketType::PACKET => 10,
        }
    }

    /// The socket type named by a code, or `EINVAL`.
    pub open spec fn from_code(v: u16) -> Result<SocketType, SysError> {
        if v == 1 {
            Ok(SocketType::STREAM)
        } else if v == 2 {
            Ok(SocketType::DGRAM)
        } else if v == 3 {
            Ok(SocketType::RAW)
        } else if v == 4 {
            Ok(SocketType::RDM)
        } else if v == 5 {
            Ok(SocketType::SEQPACKET)
        } else if v == 6 {
            Ok(SocketType::DCCP)
        } else if v == 10 {
            Ok(SocketType::PACKET)
        } else {
            Err(SysError::EINVAL)
        }
    }
}

impl TryFrom<u16> for SocketType {
    type Error = SysError;

    fn try_from(value: u16) -> (r: Result<SocketType, SysError>) {
        match value {
            1 => Ok(SocketType::STREAM),
            2 => Ok(SocketType::DGRAM),
            3 => Ok(SocketType::RAW),
            4 => Ok(SocketType::RDM),
            5 => Ok(SocketType::SEQPACKET),
            6 => Ok(SocketType::DCCP),
            10 => Ok(SocketType::PACKET),
            _ => Err(SysError::EINVAL),
        }
    }
}

impl vstd::std_specs::convert::TryFromSpecImpl<u16> for SocketType {
    open spec fn obeys_try_from_spec() -> bool {
        true
    }

    open spec fn try_from_spec(v: u16) -> Result<SocketType, SysError> {
        SocketType::from_code(v)
    }
}

impl From<SocketType> for u16 {
    fn from(value: SocketType) -> (r: u16) {
        match value {
            SocketType::STREAM => 1,
            SocketType::DGRAM => 2,
            SocketType::RAW => 3,
            SocketType::RDM => 4,
            SocketType::SEQPACKET => 5,
            SocketType::DCCP => 6,
            SocketType::PACKET => 10,
        }
    }
}

impl vstd::std_specs::convert::FromSpecImpl<SocketType> for u16 {
    open spec fn obeys_from_spec() -> bool {
        true
    }

    open spec fn from_spec(v: SocketType) -> u16 {
        v.code()
    }
}

/// Protocol level of a socket option.
#[allow(non_camel_case_types)]
#[derive(Debug, Clone, Copy, PartialEq, Eq, Structural)]
pub enum SocketLevel {
    IPPROTO_IP,
    SOL_SOCKET,
    IPPROTO_IPV6,
    IPPROTO_TCP,
}

impl SocketLevel {
    /// The numeric code of the level, as the conversions in both
    /// directions use it (`IPPROTO_TCP` is coded 2 here).
    pub open spec fn code(self) -> u16 {
        match self {
            SocketLevel::IPPROTO_IP => 0,
            SocketLevel::SOL_SOCKET => 1,
            SocketLevel::IPPROTO_TCP => 2,
            SocketLevel::IPPROTO_IPV6 => 41,
        }
    }

    /// The level named by a code, or `EINVAL`.
    pub open spec fn from_code(v: usize) -> Result<SocketLevel, SysError> {
        if v == 0 {
            Ok(SocketLevel::IPPROTO_IP)
        } else if v == 1 {
            Ok(SocketLevel::SOL_SOCKET)
        } else if v == 2 {
            Ok(SocketLevel::IPPROTO_TCP)
        } else if v == 41 {
            Ok(SocketLevel::IPPROTO_IPV6)
        } else {
            Err(SysError::EINVAL)
        }
    }
}

impl TryFrom<usize> for SocketLevel {
    type Error = SysError;

    fn try_from(value: usize) -> (r: Result<SocketLevel, SysError>) {
        match value {
            0 => Ok(SocketLevel::IPPROTO_IP),
            1 => Ok(SocketLevel::SOL_SOCKET),
            2 => Ok(SocketLevel::IPPROTO_TCP),
            41 => Ok(SocketLevel::IPPROTO_IPV6),
            _ => Err(SysError::EINVAL),
        }
    }
}

impl vstd::std_specs::convert::TryFromSpecImpl<usize> for SocketLevel {
    open spec fn obeys_try_from_spec() -> bool {
        true
    }

    open spec fn try_from_spec(v: usize) -> Result<SocketLevel, SysError> {
        SocketLevel::from_code(v)
    }
}

impl From<SocketLevel> for u16 {
    fn from(value: SocketLevel) -> (r: u16) {
        match value {
            SocketLevel::IPPROTO_IP => 0,
            SocketLevel::IPPROTO_IPV6 => 41,
            SocketLevel::IPPROTO_TCP => 2,
            SocketLevel::SOL_SOCKET => 1,
        }
    }
}

impl vstd::std_specs::convert::FromSpecImpl<SocketLevel> for u16 {
    open spec fn obeys_from_spec() -> bool {
        true
    }

    open spec fn from_spec(v: SocketLevel) -> u16 {
        v.code()
    }
}

/// Socket-level options (`SOL_SOCKET`), see socket(7).
#[allow(non_camel_case_types)]
#[derive(Debug, Clone, Copy, PartialEq, Eq, Structural)]
pub enum SocketOpt {
    /// Enable socket debugging.
    DEBUG,
    /// Allow reuse of local addresses in bind.
    REUSEADDR,
    /// Get the socket type (read-only).
    TYPE,
    /// Get and clear the pending socket error (read-only).
    ERROR,
    /// Send only to directly connected hosts.
    DONTROUTE,
    /// Allow datagram sockets to send to broadcast addresses.
    BROADCAST,
    /// Maximum socket send buffer in bytes.
    SNDBUF,
    /// Maximum socket receive buffer in bytes.
    RCVBUF,
    /// Send keep-alive messages on connection-oriented sockets.
    KEEPALIVE,
    /// Place out-of-band data directly in the receive stream.
    OOBINLINE,
    NO_CHECK,
    /// Protocol-defined priority for all packets sent on this socket.
    PRIORITY,
    /// Wait for queued messages on close or shutdown.
    LINGER,
    /// BSD bug-to-bug compatibility.
    BSDCOMPAT,
    /// Allow several sockets to bind an identical address.
    REUSEPORT,
    PASSCRED,
    PEERCRED,
    RCVLOWAT,
    SNDLOWAT,
    RCVTIMEO_OLD,
    SNDTIMEO_OLD,
    SECURITY_AUTHENTICATION,
    SECURITY_ENCRYPTION_TRANSPORT,
    SECURITY_ENCRYPTION_NETWORK,
    /// Bind this socket to a particular device.
    BINDTODEVICE,
    ATTACH_FILTER,
    DETACH_FILTER,
    SNDBUFFORCE,
    RCVBUFFORCE,
}

impl SocketOpt {
    /// The numeric code of the option.
    pub open spec fn code(self) -> usize {
        match self {
            SocketOpt::DEBUG => 1,
            SocketOpt::REUSEADDR => 2,
            SocketOpt::TYPE => 3,
            SocketOpt::ERROR => 4,
            SocketOpt::DONTROUTE => 5,
            SocketOpt::BROADCAST => 6,
            SocketOpt::SNDBUF => 7,
            SocketOpt::RCVBUF => 8,
            SocketOpt::KEEPALIVE => 9,
            SocketOpt::OOBINLINE => 10,
            SocketOpt::NO_CHECK => 11,
            SocketOpt::PRIORITY => 12,
            SocketOpt::LINGER => 13,
            SocketOpt::BSDCOMPAT => 14,
            SocketOpt::REUSEPORT => 15,
            SocketOpt::PASSCRED => 16,
            SocketOpt::PEERCRED => 17,
            SocketOpt::RCVLOWAT => 18,
            SocketOpt::SNDLOWAT => 19,
            SocketOpt::RCVTIMEO_OLD => 20,
            SocketOpt::SNDTIMEO_OLD => 21,
            SocketOpt::SECURITY_AUTHENTICATION => 22,
            SocketOpt::SECURITY_ENCRYPTION_TRANSPORT => 23,
            SocketOpt::SECURITY_ENCRYPTION_NETWORK => 24,
            SocketOpt::BINDTODEVICE => 25,
            SocketOpt::ATTACH_FILTER => 26,
            SocketOpt::DETACH_FILTER => 27,
            SocketOpt::SNDBUFFORCE => 32,
            SocketOpt::RCVBUFFORCE => 33,
        }
    }

    /// The option named by a code; an unknown code reads as `DEBUG`.
    pub open spec fn from_code(v: usize) -> SocketOpt {
        if v == 1 {
            SocketOpt::DEBUG
        } else if v == 2 {
            SocketOpt::REUSEADDR
        } else if v == 3 {
            SocketOpt::TYPE
        } else if v == 4 {
            SocketOpt::ERROR
        } else if v == 5 {
            SocketOpt::DONTROUTE
        } else if v == 6 {
            SocketOpt::BROADCAST
        } else if v == 7 {
            SocketOpt::SNDBUF
        } else if v == 8 {
            SocketOpt::RCVBUF
        } else if v == 9 {
            SocketOpt::KEEPALIVE
        } else if v == 10 {
            SocketOpt::OOBINLINE
        } else if v == 11 {
            SocketOpt::NO_CHECK
        } else if v == 12 {
            SocketOpt::PRIORITY
        } else if v == 13 {
            SocketOpt::LINGER
        } else if v == 14 {
            SocketOpt::BSDCOMPAT
        } else if v == 15 {
            SocketOpt::REUSEPORT
        } else if v == 16 {
            SocketOpt::PASSCRED
        } else if v == 17 {
            SocketOpt::PEERCRED
        } else if v == 18 {
            SocketOpt::RCVLOWAT
        } else if v == 19 {
            SocketOpt::SNDLOWAT
        } else if v == 20 {
            SocketOpt::RCVTIMEO_OLD
        } else if v == 21 {
            SocketOpt::SNDTIMEO_OLD
        } else if v == 22 {
            SocketOpt::SECURITY_AUTHENTICATION
        } else if v == 23 {
            SocketOpt::SECURITY_ENCRYPTION_TRANSPORT
        } else if v == 24 {
            SocketOpt::SECURITY_ENCRYPTION_NETWORK
        } else if v == 25 {
            SocketOpt::BINDTODEVICE
        } else if v == 26 {
            SocketOpt::ATTACH_FILTER
        } else if v == 27 {
            SocketOpt::DETACH_FILTER
        } else if v == 32 {
            SocketOpt::SNDBUFFORCE
        } else if v == 33 {
            SocketOpt::RCVBUFFORCE
        } else {
            SocketOpt::DEBUG
        }
    }
}

impl TryFrom<usize> for SocketOpt {
    type Error = SysError;

    fn try_from(value: usize) -> (r: Result<SocketOpt, SysError>) {
        match value {
            1 => Ok(SocketOpt::DEBUG),
            2 => Ok(SocketOpt::REUSEADDR),
            3 => Ok(SocketOpt::TYPE),
            4 => Ok(SocketOpt::ERROR),
            5 => Ok(SocketOpt::DONTROUTE),
            6 => Ok(SocketOpt::BROADCAST),
            7 => Ok(SocketOpt::SNDBUF),
            8 => Ok(SocketOpt::RCVBUF),
            9 => Ok(SocketOpt::KEEPALIVE),
            10 => Ok(SocketOpt::OOBINLINE),
            11 => Ok(SocketOpt::NO_CHECK),
            12 => Ok(SocketOpt::PRIORITY),
            13 => Ok(SocketOpt::LINGER),
            14 => Ok(SocketOpt::BSDCOMPAT),
            15 => Ok(SocketOpt::REUSEPORT),
            16 => Ok(SocketOpt::PASSCRED),
            17 => Ok(SocketOpt::PEERCRED),
            18 => Ok(SocketOpt::RCVLOWAT),
            19 => Ok(SocketOpt::SNDLOWAT),
            20 => Ok(SocketOpt::RCVTIMEO_OLD),
            21 => Ok(SocketOpt::SNDTIMEO_OLD),
            22 => Ok(SocketOpt::SECURITY_AUTHENTICATION),
            23 => Ok(SocketOpt::SECURITY_ENCRYPTION_TRANSPORT),
            24 => Ok(SocketOpt::SECURITY_ENCRYPTION_NETWORK),
            25 => Ok(SocketOpt::BINDTODEVICE),
            26 => Ok(SocketOpt::ATTACH_FILTER),
            27 => Ok(SocketOpt::DETACH_FILTER),
            32 => Ok(SocketOpt::SNDBUFFORCE),
            33 => Ok(SocketOpt::RCVBUFFORCE),
            _ => Ok(SocketOpt::DEBUG),
        }
    }
}

impl vstd::std_specs::convert::TryFromSpecImpl<usize> for SocketOpt {
    open spec fn obeys_try_from_spec() -> bool {
        true
    }

    open spec fn try_from_spec(v: usize) -> Result<SocketOpt, SysError> {
        Ok(SocketOpt::from_code(v))
    }
}

/// TCP-level options (`IPPROTO_TCP`).
#[derive(Debug, Clone, Copy, PartialEq, Eq, Structural)]
pub enum TcpSocketOpt {
    NODELAY,
    MAXSEG,
    INFO,
    CONGESTION,
}

impl TcpSocketOpt {
    /// The numeric code of the option.
    pub open spec fn code(self) -> usize {
        match self {
            TcpSocketOpt::NODELAY => 1,
            TcpSocketOpt::MAXSEG => 2,
            TcpSocketOpt::INFO => 11,
            TcpSocketOpt::CONGESTION => 13,
        }
    }

    /// The option named by a code, or `EINVAL`.
    pub open spec fn from_code(v: usize) -> Result<TcpSocketOpt, SysError> {
        if v == 1 {
            Ok(TcpSocketOpt::NODELAY)
        } else if v == 2 {
            Ok(TcpSocketOpt::MAXSEG)
        } else if v == 11 {
            Ok(TcpSocketOpt::INFO)
        } else if v == 13 {
            Ok(TcpSocketOpt::CONGESTION)
        } else {
            Err(SysError::EINVAL)
        }
    }
}

impl TryFrom<usize> for TcpSocketOpt {
    type Error = SysError;

    fn try_from(value: usize) -> (r: Result<TcpSocketOpt, SysError>) {
        match value {
            1 => Ok(TcpSocketOpt::NODELAY),
            2 => Ok(TcpSocketOpt::MAXSEG),
            11 => Ok(TcpSocketOpt::INFO),
            13 => Ok(TcpSocketOpt::CONGESTION),
            _ => Err(SysError::EINVAL),
        }
    }
}

impl vstd::std_specs::convert::TryFromSpecImpl<usize> for TcpSocketOpt {
    open spec fn obeys_try_from_spec() -> bool {
        true
    }

    open spec fn try_from_spec(v: usize) -> Result<TcpSocketOpt, SysError> {
        TcpSocketOpt::from_code(v)
    }
}

/// Reading back the code of a family gives the family, and a code that
/// reads as a family is that family's code.
pub proof fn lemma_sa_family_code_roundtrip(f: SaFamily, v: u16)
    ensures
        SaFamily::from_code(f.code()) == Ok::<SaFamily, SysError>(f),
        SaFamily::from_code(v) is Ok ==> SaFamily::from_code(v)->Ok_0.code() == v,
{
}

/// Reading back the code of a socket type gives the type, and a code that
/// reads as a type is that type's code.
pub proof fn lemma_socket_type_code_roundtrip(t: SocketType, v: u16)
    ensures
        SocketType::from_code(t.code()) == Ok::<SocketType, SysError>(t),
        SocketType::from_code(v) is Ok ==> SocketType::from_code(v)->Ok_0.code() == v,
{
}

/// Reading back the code of a level gives the level, and a code that reads
/// as a level is that level's code.
pub proof fn lemma_socket_level_code_roundtrip(l: SocketLevel, v: usize)
    ensures
        SocketLevel::from_code(l.code() as usize) == Ok::<SocketLevel, SysError>(l),
        SocketLevel::from_code(v) is Ok ==> SocketLevel::from_code(v)->Ok_0.code() == v,
{
}

/// Every code reads as a socket option; the code of each option reads back
/// as that option, and a code that names an option other than `DEBUG` is
/// that option's code.
pub proof fn lemma_socket_opt_code_roundtrip(o: SocketOpt, v: usize)
    ensures
        SocketOpt::from_code(o.code()) == o,
        SocketOpt::from_code(v) != SocketOpt::DEBUG ==> SocketOpt::from_code(v).code() == v,
{
}

/// Reading back the code of a TCP option gives the option, and a code that
/// reads as an option is that option's code.
pub proof fn lemma_tcp_socket_opt_code_roundtrip(o: TcpSocketOpt, v: usize)
    ensures
        TcpSocketOpt::from_code(o.code()) == Ok::<TcpSocketOpt, SysError>(o),
        TcpSocketOpt::from_code(v) is Ok ==> TcpSocketOpt::from_code(v)->Ok_0.code() == v,
{
}

} // verus!

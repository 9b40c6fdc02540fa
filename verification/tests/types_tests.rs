use rros_net::error::SysError;
use rros_net::types::{SaFamily, SocketLevel, SocketOpt, SocketType, TcpSocketOpt};

#[test]
fn sa_family_codes() {
    assert_eq!(SaFamily::try_from(1u16), Ok(SaFamily::AF_Unix));
    assert_eq!(SaFamily::try_from(2u16), Ok(SaFamily::AF_Inet));
    assert_eq!(SaFamily::try_from(10u16), Ok(SaFamily::AF_Inet6));
    assert_eq!(SaFamily::try_from(3u16), Err(SysError::EINVAL));
    assert_eq!(SaFamily::try_from(0u16), Err(SysError::EINVAL));
    assert_eq!(u16::from(SaFamily::AF_Unix), 1);
    assert_eq!(u16::from(SaFamily::AF_Inet), 2);
    assert_eq!(u16::from(SaFamily::AF_Inet6), 10);
}

#[test]
fn sa_family_roundtrip_on_every_code() {
    for v in 0..=u16::MAX {
        if let Ok(f) = SaFamily::try_from(v) {
            assert_eq!(u16::from(f), v);
        }
    }
    for f in [SaFamily::AF_Unix, SaFamily::AF_Inet, SaFamily::AF_Inet6] {
        assert_eq!(SaFamily::try_from(u16::from(f)), Ok(f));
    }
}

#[test]
fn socket_type_codes() {
    let all = [
        (1u16, SocketType::STREAM),
        (2, SocketType::DGRAM),
        (3, SocketType::RAW),
        (4, SocketType::RDM),
        (5, SocketType::SEQPACKET),
        (6, SocketType::DCCP),
        (10, SocketType::PACKET),
    ];
    for (code, t) in all {
        assert_eq!(SocketType::try_from(code), Ok(t));
        assert_eq!(u16::from(t), code);
    }
    assert_eq!(SocketType::try_from(7u16), Err(SysError::EINVAL));
    assert_eq!(SocketType::try_from(0u16), Err(SysError::EINVAL));
}

#[test]
fn socket_type_roundtrip_on_every_code() {
    for v in 0..=u16::MAX {
        if let Ok(t) = SocketType::try_from(v) {
            assert_eq!(u16::from(t), v);
        }
    }
}

#[test]
fn socket_level_codes() {
    assert_eq!(SocketLevel::try_from(0usize), Ok(SocketLevel::IPPROTO_IP));
    assert_eq!(SocketLevel::try_from(1usize), Ok(SocketLevel::SOL_SOCKET));
    assert_eq!(SocketLevel::try_from(2usize), Ok(SocketLevel::IPPROTO_TCP));
    assert_eq!(SocketLevel::try_from(41usize), Ok(SocketLevel::IPPROTO_IPV6));
    assert_eq!(SocketLevel::try_from(6usize), Err(SysError::EINVAL));
    assert_eq!(u16::from(SocketLevel::IPPROTO_IP), 0);
    assert_eq!(u16::from(SocketLevel::SOL_SOCKET), 1);
    assert_eq!(u16::from(SocketLevel::IPPROTO_TCP), 2);
    assert_eq!(u16::from(SocketLevel::IPPROTO_IPV6), 41);
}

#[test]
fn socket_level_roundtrip() {
    for l in [
        SocketLevel::IPPROTO_IP,
        SocketLevel::SOL_SOCKET,
        SocketLevel::IPPROTO_TCP,
        SocketLevel::IPPROTO_IPV6,
    ] {
        assert_eq!(SocketLevel::try_from(u16::from(l) as usize), Ok(l));
    }
}

#[test]
fn socket_opt_codes() {
    assert_eq!(SocketOpt::try_from(1usize), Ok(SocketOpt::DEBUG));
    assert_eq!(SocketOpt::try_from(2usize), Ok(SocketOpt::REUSEADDR));
    assert_eq!(SocketOpt::try_from(9usize), Ok(SocketOpt::KEEPALIVE));
    assert_eq!(SocketOpt::try_from(15usize), Ok(SocketOpt::REUSEPORT));
    assert_eq!(SocketOpt::try_from(25usize), Ok(SocketOpt::BINDTODEVICE));
    assert_eq!(SocketOpt::try_from(27usize), Ok(SocketOpt::DETACH_FILTER));
    assert_eq!(SocketOpt::try_from(32usize), Ok(SocketOpt::SNDBUFFORCE));
    assert_eq!(SocketOpt::try_from(33usize), Ok(SocketOpt::RCVBUFFORCE));
}

#[test]
fn socket_opt_unknown_codes_read_as_debug() {
    for v in [0usize, 28, 29, 30, 31, 34, 1000] {
        assert_eq!(SocketOpt::try_from(v), Ok(SocketOpt::DEBUG));
    }
}

#[test]
fn tcp_socket_opt_codes() {
    assert_eq!(TcpSocketOpt::try_from(1usize), Ok(TcpSocketOpt::NODELAY));
    assert_eq!(TcpSocketOpt::try_from(2usize), Ok(TcpSocketOpt::MAXSEG));
    assert_eq!(TcpSocketOpt::try_from(11usize), Ok(TcpSocketOpt::INFO));
    assert_eq!(TcpSocketOpt::try_from(13usize), Ok(TcpSocketOpt::CONGESTION));
    assert_eq!(TcpSocketOpt::try_from(3usize), Err(SysError::EINVAL));
    assert_eq!(TcpSocketOpt::try_from(0usize), Err(SysError::EINVAL));
}

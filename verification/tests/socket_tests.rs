use std::sync::Arc;
use std::task::{Wake, Waker};

use smoltcp::iface::{Config, Interface};
use smoltcp::phy::{Loopback, Medium};
use smoltcp::socket::{tcp, udp};
use smoltcp::time::Instant;
use smoltcp::wire::HardwareAddress;

use rros_net::endpoint::{IpAddress, IpEndpoint, IpListenEndpoint};
use rros_net::error::SysError;
use rros_net::listen_table::{ListenTable, PORT_START};
use rros_net::port_map::PortMap;
use rros_net::sockaddr::{SockAddrIn, SocketAddr};
use rros_net::socket::{SmolSocket, Sock, Socket, O_NONBLOCK, O_RDWR};
use rros_net::tcp::{ShutdownAction, SHUT_RDWR};
use rros_net::types::{SaFamily, SocketType};

struct Noop;

impl Wake for Noop {
    fn wake(self: Arc<Self>) {}
}

fn waker() -> Waker {
    Waker::from(Arc::new(Noop))
}

fn inet(addr: [u8; 4], port: u16) -> SocketAddr {
    SocketAddr::Inet(SockAddrIn { family: 2, port: port.to_be_bytes(), addr, zero: [0; 8] })
}

fn udp_smol() -> udp::Socket<'static> {
    udp::Socket::new(
        udp::PacketBuffer::new(vec![udp::PacketMetadata::EMPTY; 4], vec![0; 256]),
        udp::PacketBuffer::new(vec![udp::PacketMetadata::EMPTY; 4], vec![0; 256]),
    )
}

fn tcp_smol() -> tcp::Socket<'static> {
    tcp::Socket::new(tcp::SocketBuffer::new(vec![0; 256]), tcp::SocketBuffer::new(vec![0; 256]))
}

#[test]
fn new_stream_and_datagram_sockets() {
    let s: Socket<u32> = Socket::new(SaFamily::AF_Inet, SocketType::STREAM, false, || 0);
    assert_eq!(s.types, SocketType::STREAM);
    match &s.sk {
        Sock::Tcp(t) => {
            assert!(t.is_closed());
            assert!(!t.is_nonblocking());
            assert_eq!(t.handle(), None);
        },
        _ => panic!("expected a TCP socket"),
    }
    let d: Socket<u32> = Socket::new(SaFamily::AF_Inet6, SocketType::DGRAM, true, || 42);
    assert_eq!(d.types, SocketType::DGRAM);
    match &d.sk {
        Sock::Udp(u) => {
            assert_eq!(u.handle(), 42);
            assert!(u.is_nonblocking());
            assert_eq!(u.peer_addr(), Err(SysError::ENOTCONN));
        },
        _ => panic!("expected a UDP socket"),
    }
    let t: Socket<u32> = Socket::new(SaFamily::AF_Inet, SocketType::STREAM, true, || 0);
    match &t.sk {
        Sock::Tcp(t) => assert!(t.is_nonblocking()),
        _ => panic!("expected a TCP socket"),
    }
}

#[test]
fn socket_from_another_keeps_the_type() {
    let s: Socket<u32> = Socket::new(SaFamily::AF_Inet, SocketType::DGRAM, false, || 1);
    let other: Socket<u32> = Socket::from_another(&s, Sock::Unix);
    assert_eq!(other.types, SocketType::DGRAM);
    assert!(matches!(other.sk, Sock::Unix));
}

#[test]
fn tcp_bind_listen_and_addresses() {
    let mut table: ListenTable<u32> = ListenTable::new();
    let mut curr = PORT_START;
    let mut map = PortMap::new();
    let mut s: Socket<u32> = Socket::new(SaFamily::AF_Inet, SocketType::STREAM, false, || 0);
    assert_eq!(s.sk.bind(3, inet([0, 0, 0, 0], 8080), &table, &mut curr, &mut map, None), Ok(None));
    assert_eq!(map.get(8080), None);
    assert_eq!(s.sk.listen(&mut table), Ok(()));
    assert!(!table.can_listen(8080));
    let local = s.sk.local_addr().unwrap();
    assert_eq!(local.into_endpoint(), IpEndpoint { addr: IpAddress::Ipv4([0, 0, 0, 0]), port: 8080 });
    assert_eq!(local.to_string(), "AF_NET:0.0.0.0:8080");
    let peer = s.sk.peer_addr().unwrap();
    assert_eq!(peer.family(), 10);
    let mut smol = tcp_smol();
    match s.sk.shutdown(SHUT_RDWR, &mut table, SmolSocket::Tcp(&mut smol)) {
        Ok(ShutdownAction::Unlistened(q)) => assert!(q.is_empty()),
        _ => panic!("expected the port to be unlistened"),
    }
    assert!(table.can_listen(8080));
}

#[test]
fn tcp_accept_through_sock() {
    let mut table: ListenTable<u32> = ListenTable::new();
    let mut curr = PORT_START;
    let mut map = PortMap::new();
    let mut s: Socket<u32> = Socket::new(SaFamily::AF_Inet, SocketType::STREAM, false, || 0);
    let addrs = |_h: u32| {
        (
            IpEndpoint { addr: IpAddress::Ipv4([10, 0, 2, 15]), port: 80 },
            IpEndpoint { addr: IpAddress::Ipv4([10, 0, 2, 2]), port: 40000 },
        )
    };
    assert_eq!(s.sk.accept(&mut table, &|_h: u32| true, &addrs).err(), Some(SysError::EINVAL));
    s.sk.bind(3, inet([10, 0, 2, 15], 80), &table, &mut curr, &mut map, None).unwrap();
    s.sk.listen(&mut table).unwrap();
    table.incoming_tcp_packet(addrs(0).1, addrs(0).0, |_l| Some(6u32));
    let c = s.sk.accept(&mut table, &|_h: u32| true, &addrs).unwrap();
    assert!(c.is_connected());
    assert_eq!(c.handle(), Some(6));
    let conn = Sock::Tcp(c);
    assert_eq!(conn.peer_addr().unwrap().to_string(), "AF_NET:10.0.2.2:40000");
}

#[test]
fn udp_bind_records_the_port_or_duplicates() {
    let table: ListenTable<u32> = ListenTable::new();
    let mut curr = PORT_START;
    let mut map = PortMap::new();
    let mut smol = udp_smol();
    let mut a: Socket<u32> = Socket::new(SaFamily::AF_Inet, SocketType::DGRAM, false, || 1);
    assert_eq!(a.sk.bind(5, inet([127, 0, 0, 1], 5353), &table, &mut curr, &mut map, Some(&mut smol)), Ok(None));
    let bound = IpListenEndpoint { addr: Some(IpAddress::Ipv4([127, 0, 0, 1])), port: 5353 };
    assert_eq!(map.get(5353), Some((5, bound)));
    assert_eq!(a.sk.local_addr().unwrap().to_string(), "AF_NET:127.0.0.1:5353");
    let mut smol2 = udp_smol();
    let mut b: Socket<u32> = Socket::new(SaFamily::AF_Inet, SocketType::DGRAM, false, || 2);
    // the same endpoint is held by descriptor 5
    assert_eq!(b.sk.bind(6, inet([127, 0, 0, 1], 5353), &table, &mut curr, &mut map, Some(&mut smol2)), Ok(Some(5)));
    match &b.sk {
        Sock::Udp(u) => assert_eq!(u.local_addr(), Err(SysError::ENOTCONN)),
        _ => panic!("expected a UDP socket"),
    }
}

#[test]
fn udp_operations_through_sock() {
    let mut table: ListenTable<u32> = ListenTable::new();
    let mut smol = udp_smol();
    let mut s: Socket<u32> = Socket::new(SaFamily::AF_Inet, SocketType::DGRAM, false, || 1);
    let w = waker();
    assert_eq!(s.sk.listen(&mut table), Err(SysError::EOPNOTSUPP));
    assert_eq!(
        s.sk.accept(&mut table, &|_h: u32| true, &|_h: u32| {
            (
                IpEndpoint { addr: IpAddress::Ipv4([0; 4]), port: 0 },
                IpEndpoint { addr: IpAddress::Ipv4([0; 4]), port: 0 },
            )
        })
        .err(),
        Some(SysError::EOPNOTSUPP)
    );
    assert_eq!(s.sk.sendto(SmolSocket::Udp(&mut smol), b"x", None, &w), Err(SysError::ENOTCONN));
    assert_eq!(
        s.sk.sendto(SmolSocket::Udp(&mut smol), b"x", Some(inet([127, 0, 0, 1], 0)), &w),
        Err(SysError::EINVAL)
    );
    assert_eq!(s.sk.sendto(SmolSocket::Udp(&mut smol), b"xyz", Some(inet([127, 0, 0, 1], 9)), &w), Ok(3));
    let poll = s.sk.poll(SmolSocket::Udp(&mut smol), &w);
    assert!(!poll.hangup);
    assert!(!poll.recvable);
    assert!(poll.sendable);
    assert!(matches!(s.sk.shutdown(0, &mut table, SmolSocket::Udp(&mut smol)), Ok(ShutdownAction::Nothing)));
}

#[test]
fn udp_shutdown_through_sock_empties_the_smoltcp_socket() {
    let mut table: ListenTable<u32> = ListenTable::new();
    let mut curr = PORT_START;
    let mut map = PortMap::new();
    let mut smol = udp_smol();
    let mut s: Socket<u32> = Socket::new(SaFamily::AF_Inet, SocketType::DGRAM, false, || 1);
    let w = waker();
    assert_eq!(s.sk.bind(3, inet([127, 0, 0, 1], 5000), &table, &mut curr, &mut map, Some(&mut smol)), Ok(None));
    for _ in 0..4 {
        assert_eq!(s.sk.sendto(SmolSocket::Udp(&mut smol), b"abc", Some(inet([127, 0, 0, 1], 9)), &w), Ok(3));
    }
    // all four slots are taken
    assert!(!s.sk.poll(SmolSocket::Udp(&mut smol), &w).sendable);
    assert_eq!(s.sk.sendto(SmolSocket::Udp(&mut smol), b"abc", Some(inet([127, 0, 0, 1], 9)), &w), Err(SysError::EAGAIN));
    assert!(matches!(s.sk.shutdown(0, &mut table, SmolSocket::Udp(&mut smol)), Ok(ShutdownAction::Nothing)));
    // the smoltcp socket is closed: unbound, and its buffers emptied
    assert!(smol.can_send());
    assert!(!smol.can_recv());
    assert!(!smol.is_open());
}

#[test]
fn udp_connect_through_sock() {
    let mut device = Loopback::new(Medium::Ip);
    let mut iface = Interface::new(Config::new(HardwareAddress::Ip), &mut device, Instant::from_millis(0));
    let mut smol = udp_smol();
    let mut s: Socket<u32> = Socket::new(SaFamily::AF_Inet, SocketType::DGRAM, false, || 1);
    assert_eq!(s.sk.connect(inet([10, 0, 0, 1], 53), 1, SmolSocket::Udp(&mut smol), iface.context()), Ok(()));
    assert_eq!(s.sk.peer_addr().unwrap().to_string(), "AF_NET:10.0.0.1:53");
    let w = waker();
    assert_eq!(s.sk.sendto(SmolSocket::Udp(&mut smol), b"q", None, &w), Ok(1));
}

#[test]
fn socket_file_flags() {
    let s: Socket<u32> = Socket::new(SaFamily::AF_Inet, SocketType::STREAM, false, || 0);
    assert_eq!(s.flags, O_RDWR);
    let n: Socket<u32> = Socket::new(SaFamily::AF_Inet, SocketType::DGRAM, true, || 0);
    assert_eq!(n.flags, O_RDWR | O_NONBLOCK);
    let other: Socket<u32> = Socket::from_another(&n, Sock::Unix);
    assert_eq!(other.flags, O_RDWR);
}

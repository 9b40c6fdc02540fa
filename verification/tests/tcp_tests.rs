use std::sync::Arc;
use std::task::{Wake, Waker};

use smoltcp::iface::{Config, Interface, SocketSet};
use smoltcp::phy::{Loopback, Medium};
use smoltcp::socket::tcp;
use smoltcp::time::Instant;
use smoltcp::wire::{HardwareAddress, IpAddress as SmolAddress, IpCidr};

use rros_net::endpoint::{IpAddress, IpEndpoint, IpListenEndpoint};
use rros_net::error::SysError;
use rros_net::listen_table::{get_dst_addr, is_connected, ListenTable, PORT_START};
use rros_net::smol::TcpState;
use rros_net::tcp::{
    block_on_step, close_connection, recv_step, send_step, BlockOnStep, RecvStep, SendStep, ShutdownAction,
    TcpSocket, SHUT_RD, SHUT_RDWR, SHUT_WR, STATE_CLOSED,
};

struct Noop;

impl Wake for Noop {
    fn wake(self: Arc<Self>) {}
}

fn waker() -> Waker {
    Waker::from(Arc::new(Noop))
}

fn v4(a: [u8; 4], port: u16) -> IpEndpoint {
    IpEndpoint { addr: IpAddress::Ipv4(a), port }
}

fn unspecified_v4() -> IpEndpoint {
    v4([0, 0, 0, 0], 0)
}

fn smol_socket() -> tcp::Socket<'static> {
    tcp::Socket::new(tcp::SocketBuffer::new(vec![0; 1024]), tcp::SocketBuffer::new(vec![0; 1024]))
}

fn loopback_iface() -> (Loopback, Interface) {
    let mut device = Loopback::new(Medium::Ip);
    let mut iface = Interface::new(Config::new(HardwareAddress::Ip), &mut device, Instant::from_millis(0));
    iface.update_ip_addrs(|addrs| {
        addrs.push(IpCidr::new(SmolAddress::v4(127, 0, 0, 1), 8)).unwrap();
    });
    (device, iface)
}

#[test]
fn new_socket_is_closed_and_unbound() {
    let s: TcpSocket<u32> = TcpSocket::new();
    assert!(s.is_closed());
    assert_eq!(s.get_state(), STATE_CLOSED);
    assert_eq!(s.handle(), None);
    assert!(!s.is_nonblocking());
    assert_eq!(s.local_addr(), Ok(unspecified_v4()));
    assert_eq!(s.peer_addr(), Err(SysError::ENOTCONN));
}

#[test]
fn tcp_nonblocking_flag() {
    let mut s: TcpSocket<u32> = TcpSocket::new();
    s.set_nonblocking(true);
    assert!(s.is_nonblocking());
    assert!(s.is_closed());
    s.set_nonblocking(false);
    assert!(!s.is_nonblocking());
}

#[test]
fn sockets_with_handles() {
    let s = TcpSocket::new_socket_with_addr(3u32, v4([1, 1, 1, 1], 80), v4([2, 2, 2, 2], 8080));
    assert_eq!(s.handle(), Some(3));
    assert!(s.is_closed());
    assert_eq!(s.local_addr(), Ok(v4([2, 2, 2, 2], 8080)));
    assert_eq!(s.peer_addr(), Err(SysError::ENOTCONN));
    let c = TcpSocket::new_connected(4u32, v4([2, 2, 2, 2], 8080), v4([1, 1, 1, 1], 80));
    assert!(c.is_connected());
    assert_eq!(c.handle(), Some(4));
    assert_eq!(c.local_addr(), Ok(v4([2, 2, 2, 2], 8080)));
    assert_eq!(c.peer_addr(), Ok(v4([1, 1, 1, 1], 80)));
}

#[test]
fn bind_records_the_endpoint() {
    let table: ListenTable<u32> = ListenTable::new();
    let mut curr = PORT_START;
    let mut s: TcpSocket<u32> = TcpSocket::new();
    assert_eq!(s.bind(v4([10, 0, 2, 15], 8080), &table, &mut curr), Ok(()));
    assert!(s.is_closed());
    assert_eq!(s.local_addr(), Ok(v4([10, 0, 2, 15], 8080)));
    assert_eq!(curr, PORT_START);
    assert_eq!(
        s.bound_point(),
        Ok(IpListenEndpoint { addr: Some(IpAddress::Ipv4([10, 0, 2, 15])), port: 8080 })
    );
    // a bound socket cannot be bound again
    assert_eq!(s.bind(v4([10, 0, 2, 15], 9090), &table, &mut curr), Err(SysError::EADDRINUSE));
    assert!(s.is_closed());
    assert_eq!(s.local_addr(), Ok(v4([10, 0, 2, 15], 8080)));
}

#[test]
fn bind_to_port_zero_takes_an_ephemeral_port() {
    let mut table: ListenTable<u32> = ListenTable::new();
    table.listen(IpListenEndpoint { addr: None, port: PORT_START }).unwrap();
    let mut curr = PORT_START;
    let mut s: TcpSocket<u32> = TcpSocket::new();
    assert_eq!(s.bind(v4([0, 0, 0, 0], 0), &table, &mut curr), Ok(()));
    assert_eq!(curr, PORT_START + 1);
    assert_eq!(s.local_addr(), Ok(v4([0, 0, 0, 0], PORT_START + 1)));
    assert_eq!(s.bound_point(), Ok(IpListenEndpoint { addr: None, port: PORT_START + 1 }));
}

#[test]
fn bind_to_unspecified_ipv6_records_unspecified_ipv4() {
    let table: ListenTable<u32> = ListenTable::new();
    let mut curr = PORT_START;
    let mut s: TcpSocket<u32> = TcpSocket::new();
    let any6 = IpEndpoint { addr: IpAddress::Ipv6([0; 16]), port: 7000 };
    assert_eq!(s.bind(any6, &table, &mut curr), Ok(()));
    assert_eq!(s.local_addr(), Ok(v4([0, 0, 0, 0], 7000)));
    let mut t: TcpSocket<u32> = TcpSocket::new();
    let mut one = [0u8; 16];
    one[15] = 1;
    let loop6 = IpEndpoint { addr: IpAddress::Ipv6(one), port: 7001 };
    assert_eq!(t.bind(loop6, &table, &mut curr), Ok(()));
    assert_eq!(t.local_addr(), Ok(loop6));
}

#[test]
fn bind_of_listening_socket_is_einval() {
    let mut table: ListenTable<u32> = ListenTable::new();
    let mut curr = PORT_START;
    let mut s: TcpSocket<u32> = TcpSocket::new();
    s.bind(v4([0, 0, 0, 0], 80), &table, &mut curr).unwrap();
    s.listen(&mut table).unwrap();
    assert_eq!(s.bind(v4([0, 0, 0, 0], 81), &table, &mut curr), Err(SysError::EINVAL));
    assert!(s.is_listening());
}

#[test]
fn listen_puts_the_port_into_the_table() {
    let mut table: ListenTable<u32> = ListenTable::new();
    let mut curr = PORT_START;
    let mut s: TcpSocket<u32> = TcpSocket::new();
    s.bind(v4([0, 0, 0, 0], 80), &table, &mut curr).unwrap();
    assert_eq!(s.listen(&mut table), Ok(()));
    assert!(s.is_listening());
    assert!(!table.can_listen(80));
    assert_eq!(s.local_addr(), Ok(v4([0, 0, 0, 0], 80)));
    assert_eq!(s.peer_addr(), Ok(IpEndpoint { addr: IpAddress::Ipv6([0; 16]), port: 0 }));
    // listening again changes nothing
    assert_eq!(s.listen(&mut table), Ok(()));
    assert!(s.is_listening());
    // another socket on the same port cannot listen
    let mut t: TcpSocket<u32> = TcpSocket::new();
    t.bind(v4([0, 0, 0, 0], 80), &table, &mut curr).unwrap();
    assert_eq!(t.listen(&mut table), Err(SysError::EADDRINUSE));
    assert!(t.is_closed());
}

#[test]
fn accept_hands_out_connected_sockets() {
    let mut table: ListenTable<u32> = ListenTable::new();
    let mut curr = PORT_START;
    let mut s: TcpSocket<u32> = TcpSocket::new();
    let addrs = |h: u32| (v4([10, 0, 2, 15], 80), v4([10, 0, 2, 2], 40000 + h as u16));
    assert_eq!(s.accept(&mut table, &|_h: u32| true, &addrs).err(), Some(SysError::EINVAL));
    s.bind(v4([10, 0, 2, 15], 80), &table, &mut curr).unwrap();
    s.listen(&mut table).unwrap();
    assert_eq!(s.accept(&mut table, &|_h: u32| true, &addrs).err(), Some(SysError::EAGAIN));
    table.incoming_tcp_packet(v4([10, 0, 2, 2], 40005), v4([10, 0, 2, 15], 80), |_l| Some(5u32));
    assert_eq!(s.accept(&mut table, &|_h: u32| false, &addrs).err(), Some(SysError::EAGAIN));
    let c = s.accept(&mut table, &|_h: u32| true, &addrs).unwrap();
    assert!(c.is_connected());
    assert_eq!(c.handle(), Some(5));
    assert!(!c.is_nonblocking());
    assert_eq!(c.local_addr(), Ok(v4([10, 0, 2, 15], 80)));
    assert_eq!(c.peer_addr(), Ok(v4([10, 0, 2, 2], 40005)));
    assert_eq!(s.accept(&mut table, &|_h: u32| true, &addrs).err(), Some(SysError::EAGAIN));
}

#[test]
fn shutdown_with_unknown_method_is_einval() {
    let mut table: ListenTable<u32> = ListenTable::new();
    let mut s: TcpSocket<u32> = TcpSocket::new();
    assert!(matches!(s.shutdown(3, &mut table), Err(SysError::EINVAL)));
    assert!(s.is_closed());
}

#[test]
fn shutdown_of_listening_socket_unlistens() {
    let mut table: ListenTable<u32> = ListenTable::new();
    let mut curr = PORT_START;
    let mut s: TcpSocket<u32> = TcpSocket::new();
    s.bind(v4([10, 0, 2, 15], 80), &table, &mut curr).unwrap();
    s.listen(&mut table).unwrap();
    table.incoming_tcp_packet(v4([10, 0, 2, 2], 40000), v4([10, 0, 2, 15], 80), |_l| Some(1u32));
    table.incoming_tcp_packet(v4([10, 0, 2, 2], 40001), v4([10, 0, 2, 15], 80), |_l| Some(2u32));
    match s.shutdown(SHUT_RDWR, &mut table) {
        Ok(ShutdownAction::Unlistened(q)) => assert_eq!(q.into_iter().collect::<Vec<_>>(), vec![1, 2]),
        _ => panic!("expected the queued connections back"),
    }
    assert!(s.is_closed());
    assert_eq!(s.local_addr(), Ok(unspecified_v4()));
    assert!(table.can_listen(80));
}

#[test]
fn listen_then_shutdown_leaves_table_as_it_was() {
    let mut table: ListenTable<u32> = ListenTable::new();
    let mut curr = PORT_START;
    let mut s: TcpSocket<u32> = TcpSocket::new();
    s.bind(v4([0, 0, 0, 0], 443), &table, &mut curr).unwrap();
    s.listen(&mut table).unwrap();
    assert!(matches!(s.shutdown(SHUT_RD, &mut table), Ok(ShutdownAction::Unlistened(_))));
    assert!(table.can_listen(443));
    assert_eq!(table.get_ephemeral_port(&mut curr), Ok(PORT_START));
}

#[test]
fn shutdown_of_connected_socket_closes_the_connection() {
    let mut table: ListenTable<u32> = ListenTable::new();
    let mut c = TcpSocket::new_connected(8u32, v4([1, 1, 1, 1], 1), v4([2, 2, 2, 2], 2));
    match c.shutdown(SHUT_WR, &mut table) {
        Ok(ShutdownAction::CloseConnection(h)) => assert_eq!(h, 8),
        _ => panic!("expected the connection to close"),
    }
    assert!(c.is_closed());
    assert_eq!(c.handle(), Some(8));
}

#[test]
fn shutdown_of_closed_socket_does_nothing() {
    let mut table: ListenTable<u32> = ListenTable::new();
    let mut s: TcpSocket<u32> = TcpSocket::new();
    assert!(matches!(s.shutdown(SHUT_RD, &mut table), Ok(ShutdownAction::Nothing)));
    assert!(s.is_closed());
}

#[test]
fn send_and_recv_steps() {
    assert_eq!(send_step(false, TcpState::Established, true), SendStep::Send);
    assert_eq!(send_step(false, TcpState::Established, false), SendStep::Wait);
    assert_eq!(send_step(false, TcpState::CloseWait, true), SendStep::Send);
    assert_eq!(send_step(false, TcpState::SynSent, true), SendStep::NotConnected);
    assert_eq!(send_step(false, TcpState::Listen, true), SendStep::NotConnected);
    assert_eq!(send_step(false, TcpState::FinWait1, true), SendStep::NotConnected);
    assert_eq!(send_step(false, TcpState::Closed, true), SendStep::NotConnected);
    // a connection that the socket started is waited for during its handshake
    assert_eq!(send_step(true, TcpState::SynSent, false), SendStep::Wait);
    assert_eq!(send_step(true, TcpState::SynReceived, false), SendStep::Wait);
    assert_eq!(send_step(true, TcpState::Established, true), SendStep::Send);
    assert_eq!(send_step(true, TcpState::Closed, false), SendStep::NotConnected);
    assert_eq!(recv_step(TcpState::Established, 0, false), RecvStep::Wait);
    assert_eq!(recv_step(TcpState::Established, 5, false), RecvStep::Recv);
    assert_eq!(recv_step(TcpState::FinWait2, 0, true), RecvStep::Recv);
    assert_eq!(recv_step(TcpState::CloseWait, 3, true), RecvStep::Recv);
    assert_eq!(recv_step(TcpState::CloseWait, 0, false), RecvStep::NotConnected);
    assert_eq!(recv_step(TcpState::TimeWait, 3, true), RecvStep::NotConnected);
    assert_eq!(recv_step(TcpState::Listen, 0, false), RecvStep::NotConnected);
}

#[test]
fn tcp_state_predicates() {
    assert!(TcpState::Established.is_active());
    assert!(!TcpState::Listen.is_active());
    assert!(!TcpState::TimeWait.is_active());
    assert!(TcpState::CloseWait.may_send());
    assert!(!TcpState::FinWait1.may_send());
    assert!(TcpState::Closed.may_recv(1));
    assert!(!TcpState::Closed.may_recv(0));
    assert!(TcpState::Established.is_connected());
    assert!(!TcpState::SynReceived.is_connected());
    assert!(!TcpState::Listen.is_connected());
}

#[test]
fn tcp_blocking_steps() {
    assert!(matches!(block_on_step::<u32>(true, Err(SysError::EAGAIN)), BlockOnStep::Return(Err(SysError::EAGAIN))));
    assert!(matches!(block_on_step::<u32>(false, Err(SysError::EAGAIN)), BlockOnStep::Suspend));
    assert!(matches!(block_on_step(false, Ok(3u32)), BlockOnStep::Return(Ok(3))));
    assert!(matches!(block_on_step::<u32>(false, Err(SysError::ENOTCONN)), BlockOnStep::Return(Err(SysError::ENOTCONN))));
}

#[test]
fn connect_over_loopback() {
    let (_device, mut iface) = loopback_iface();
    let table: ListenTable<u32> = ListenTable::new();
    let mut curr = PORT_START;
    let mut smol = smol_socket();
    let mut s: TcpSocket<u32> = TcpSocket::new();
    s.bind(v4([0, 0, 0, 0], 49152), &table, &mut curr).unwrap();
    let peer = v4([127, 0, 0, 1], 80);
    assert_eq!(s.connect(peer, 11, &mut smol, iface.context()), Ok(()));
    assert!(s.is_connecting());
    assert_eq!(s.handle(), Some(11));
    assert_eq!(smol.state(), tcp::State::SynSent);
    // a second connect is refused
    assert_eq!(s.connect(peer, 11, &mut smol, iface.context()), Err(SysError::EEXIST));
    // sending while the connection is being made is to be retried
    let w = waker();
    assert_eq!(s.send(&mut smol, b"hello", &w), Err(SysError::EAGAIN));
}

#[test]
fn connect_to_unaddressable_peer() {
    let (_device, mut iface) = loopback_iface();
    let table: ListenTable<u32> = ListenTable::new();
    let mut curr = PORT_START;
    let mut smol = smol_socket();
    let mut s: TcpSocket<u32> = TcpSocket::new();
    s.bind(v4([0, 0, 0, 0], 49153), &table, &mut curr).unwrap();
    assert_eq!(s.connect(v4([127, 0, 0, 1], 0), 1, &mut smol, iface.context()), Err(SysError::EADDRNOTAVAIL));
    assert!(s.is_closed());
    assert_eq!(s.handle(), None);
    assert_eq!(s.connect(v4([0, 0, 0, 0], 80), 1, &mut smol, iface.context()), Err(SysError::EADDRNOTAVAIL));
    assert!(s.is_closed());
}

#[test]
fn connect_over_open_smoltcp_socket_is_ebadf() {
    let (_device, mut iface) = loopback_iface();
    let table: ListenTable<u32> = ListenTable::new();
    let mut curr = PORT_START;
    let mut smol = smol_socket();
    smol.listen(5000).unwrap();
    let mut s: TcpSocket<u32> = TcpSocket::new();
    s.bind(v4([0, 0, 0, 0], 49154), &table, &mut curr).unwrap();
    assert_eq!(s.connect(v4([127, 0, 0, 1], 80), 1, &mut smol, iface.context()), Err(SysError::EBADF));
    assert!(s.is_closed());
}

#[test]
fn transfers_on_closed_connection() {
    let mut smol = smol_socket();
    let s = TcpSocket::new_connected(1u32, v4([127, 0, 0, 1], 1), v4([127, 0, 0, 1], 2));
    let w = waker();
    assert_eq!(s.send(&mut smol, b"data", &w), Err(SysError::ENOTCONN));
    let mut buf = [0u8; 8];
    assert_eq!(s.recv(&mut smol, &mut buf, &w), Err(SysError::ENOTCONN));
    close_connection(&mut smol);
    assert_eq!(smol.state(), tcp::State::Closed);
}

#[test]
fn close_connection_of_connecting_socket() {
    let (_device, mut iface) = loopback_iface();
    let table: ListenTable<u32> = ListenTable::new();
    let mut curr = PORT_START;
    let mut smol = smol_socket();
    let mut s: TcpSocket<u32> = TcpSocket::new();
    s.bind(v4([0, 0, 0, 0], 49155), &table, &mut curr).unwrap();
    s.connect(v4([127, 0, 0, 1], 80), 2, &mut smol, iface.context()).unwrap();
    close_connection(&mut smol);
    assert_eq!(smol.state(), tcp::State::Closed);
}

#[test]
fn data_over_loopback_connection() {
    let (mut device, mut iface) = loopback_iface();
    let mut sockets = SocketSet::new(vec![]);
    let hs = sockets.add(smol_socket());
    let hc = sockets.add(smol_socket());
    sockets.get_mut::<tcp::Socket>(hs).listen(8080).unwrap();
    sockets
        .get_mut::<tcp::Socket>(hc)
        .connect(iface.context(), (SmolAddress::v4(127, 0, 0, 1), 8080), 49200)
        .unwrap();
    for t in 1..20 {
        iface.poll(Instant::from_millis(t), &mut device, &mut sockets);
    }
    assert_eq!(sockets.get::<tcp::Socket>(hc).state(), tcp::State::Established);
    assert_eq!(sockets.get::<tcp::Socket>(hs).state(), tcp::State::Established);
    let client = TcpSocket::new_connected(hc, v4([127, 0, 0, 1], 49200), v4([127, 0, 0, 1], 8080));
    let server = TcpSocket::new_connected(hs, v4([127, 0, 0, 1], 8080), v4([127, 0, 0, 1], 49200));
    let w = waker();
    let mut buf = [0u8; 8];
    // nothing has arrived yet
    assert_eq!(server.recv(sockets.get_mut::<tcp::Socket>(hs), &mut buf, &w), Err(SysError::EAGAIN));
    assert_eq!(buf, [0u8; 8]);
    assert_eq!(client.send(sockets.get_mut::<tcp::Socket>(hc), b"hello", &w), Ok(5));
    for t in 20..40 {
        iface.poll(Instant::from_millis(t), &mut device, &mut sockets);
    }
    assert_eq!(server.recv(sockets.get_mut::<tcp::Socket>(hs), &mut buf, &w), Ok(5));
    assert_eq!(&buf, b"hello\0\0\0");
    assert_eq!(client.send(sockets.get_mut::<tcp::Socket>(hc), b"abcdef", &w), Ok(6));
    for t in 40..60 {
        iface.poll(Instant::from_millis(t), &mut device, &mut sockets);
    }
    let mut small = [9u8; 4];
    assert_eq!(server.recv(sockets.get_mut::<tcp::Socket>(hs), &mut small, &w), Ok(4));
    assert_eq!(&small, b"abcd");
    assert_eq!(server.recv(sockets.get_mut::<tcp::Socket>(hs), &mut small, &w), Ok(2));
    assert_eq!(&small, b"efcd");
}

#[test]
fn send_takes_what_the_buffer_has_room_for() {
    let (mut device, mut iface) = loopback_iface();
    let mut sockets = SocketSet::new(vec![]);
    let hs = sockets.add(smol_socket());
    let small = tcp::Socket::new(tcp::SocketBuffer::new(vec![0; 64]), tcp::SocketBuffer::new(vec![0; 16]));
    let hc = sockets.add(small);
    sockets.get_mut::<tcp::Socket>(hs).listen(8081).unwrap();
    sockets
        .get_mut::<tcp::Socket>(hc)
        .connect(iface.context(), (SmolAddress::v4(127, 0, 0, 1), 8081), 49201)
        .unwrap();
    for t in 1..20 {
        iface.poll(Instant::from_millis(t), &mut device, &mut sockets);
    }
    let client = TcpSocket::new_connected(hc, v4([127, 0, 0, 1], 49201), v4([127, 0, 0, 1], 8081));
    let w = waker();
    assert_eq!(client.send(sockets.get_mut::<tcp::Socket>(hc), &[7u8; 40], &w), Ok(16));
    // the transmit buffer is full now
    assert_eq!(client.send(sockets.get_mut::<tcp::Socket>(hc), &[7u8; 40], &w), Err(SysError::EAGAIN));
}

#[test]
fn connect_from_bound_address() {
    let (_device, mut iface) = loopback_iface();
    let table: ListenTable<u32> = ListenTable::new();
    let mut curr = PORT_START;
    let mut smol = smol_socket();
    let mut s: TcpSocket<u32> = TcpSocket::new();
    s.bind(v4([127, 0, 0, 1], 49160), &table, &mut curr).unwrap();
    // an IPv6 peer for an IPv4 local address cannot be addressed
    let v6_peer = IpEndpoint { addr: IpAddress::Ipv6([0, 0, 0, 0, 0, 0, 0, 0, 0, 0, 0, 0, 0, 0, 0, 1]), port: 80 };
    assert_eq!(s.connect(v6_peer, 3, &mut smol, iface.context()), Err(SysError::EADDRNOTAVAIL));
    assert!(s.is_closed());
    assert_eq!(s.connect(v4([127, 0, 0, 1], 80), 3, &mut smol, iface.context()), Ok(()));
    assert!(s.is_connecting());
    assert_eq!(smol.state(), tcp::State::SynSent);
    assert_eq!(get_dst_addr(&smol), (Some(v4([127, 0, 0, 1], 49160)), Some(v4([127, 0, 0, 1], 80))));
    assert!(is_connected(&smol));
}

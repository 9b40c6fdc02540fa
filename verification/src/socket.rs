//! The socket that system calls act on: a TCP or UDP socket behind one
//! interface, with its type.
use vstd::prelude::*;
use crate::endpoint::{IpEndpoint, IpListenEndpoint, unspecified_ipv4, unspecified_ipv4_spec};
use crate::error::SysError;
use crate::listen_table::{ListenTable, PORT_START, accepted, after_listen, ephemeral_pick, none_reported_connected};
use crate::port_map::PortMap;
use crate::sockaddr::{SocketAddr, endpoint_of, sockaddr_of};
use crate::tcp::{ShutdownAction, TcpSocket, shut_down, bound_endpoint, local_replaced, tcp_recv_outcome, tcp_send_outcome, STATE_CLOSED, STATE_CONNECTED, STATE_CONNECTING, STATE_LISTENING, listen_point};
use crate::types::{SaFamily, SocketType};
use crate::udp::{NetPollState, UdpSocket, datagram_sent, sent};
use crate::smol::{tcp_rx, tcp_tx, udp_has_room, udp_rx, udp_rx_waiting, udp_tx};

verus! {

/// The smoltcp socket under a socket.
pub enum SmolSocket<'a, 'b> {
    Tcp(&'a mut smoltcp::socket::tcp::Socket<'b>),
    Udp(&'a mut smoltcp::socket::udp::Socket<'b>),
}

/// A socket of one of the kinds: TCP, UDP, or Unix domain (which no
/// operation supports).
pub enum Sock<H> {
    Tcp(TcpSocket<H>),
    Udp(UdpSocket<H>),
    Unix,
}

/// Whether the smoltcp socket is of the kind of the socket.
pub open spec fn smol_matches<H>(sk: Sock<H>, smol: SmolSocket<'_, '_>) -> bool {
    ||| sk is Tcp && smol is Tcp
    ||| sk is Udp && smol is Udp
}

/// The smoltcp TCP socket under a socket, as it is when the operation starts.
pub open spec fn tcp_under<'a, 'b>(smol: SmolSocket<'a, 'b>) -> smoltcp::socket::tcp::Socket<'b> {
    match smol {
        SmolSocket::Tcp(s) => *s,
        SmolSocket::Udp(_) => vstd::pervasive::arbitrary(),
    }
}

/// The smoltcp UDP socket under a socket, as it is when the operation starts.
pub open spec fn udp_under<'a, 'b>(smol: SmolSocket<'a, 'b>) -> smoltcp::socket::udp::Socket<'b> {
    match smol {
        SmolSocket::Udp(s) => *s,
        SmolSocket::Tcp(_) => vstd::pervasive::arbitrary(),
    }
}

/// A buffer after a datagram `data` has been copied into its front, as
/// much of it as fits.
pub open spec fn received_into(data: Seq<u8>, buf: Seq<u8>) -> Seq<u8> {
    let n = vstd::math::min(buf.len() as int, data.len() as int);
    data.take(n) + buf.skip(n)
}

/// A receive outcome with the address of the peer joined to its count.
pub open spec fn with_peer(outcome: Result<usize, SysError>, peer: SocketAddr) -> Result<(usize, SocketAddr), SysError> {
    match outcome {
        Ok(n) => Ok((n, peer)),
        Err(e) => Err(e),
    }
}

impl<H: Copy> Sock<H> {
    /// Makes the socket nonblocking.
    pub fn set_nonblocking(&mut self)
        requires
            !(*old(self) is Unix),
        ensures
            *old(self) is Tcp ==> (*final(self) matches Sock::Tcp(t) && t.nonblocking_spec() && t.state_spec()
                == (*old(self))->Tcp_0.state_spec() && t.local_spec() == (*old(self))->Tcp_0.local_spec()
                && t.handle_spec() == (*old(self))->Tcp_0.handle_spec()),
            *old(self) is Udp ==> (*final(self) matches Sock::Udp(u) && u.nonblocking_spec() && u.local_spec()
                == (*old(self))->Udp_0.local_spec() && u.peer_spec() == (*old(self))->Udp_0.peer_spec()
                && u.handle_spec() == (*old(self))->Udp_0.handle_spec()),
    {
        match self {
            Sock::Tcp(socket) => socket.set_nonblocking(true),
            Sock::Udp(socket) => socket.set_nonblocking(true),
            Sock::Unix => {},
        }
    }

    /// Binds the socket to the IP address `local_addr`. A TCP socket binds
    /// as `TcpSocket::bind`. A UDP socket whose port is held by the same
    /// endpoint under descriptor `prev_fd` is not bound, and the result is
    /// `Ok(Some(prev_fd))`: descriptor `sockfd` is to become a duplicate of
    /// `prev_fd`; otherwise the port is recorded for `sockfd` and the
    /// socket bound as `UdpSocket::bind`, with `Ok(None)`.
    pub fn bind(
        &mut self,
        sockfd: usize,
        local_addr: SocketAddr,
        table: &ListenTable<H>,
        curr: &mut u16,
        port_map: &mut PortMap,
        udp_socket: Option<&mut smoltcp::socket::udp::Socket<'_>>,
    ) -> (r: Result<Option<usize>, SysError>)
        requires
            !(*old(self) is Unix),
            local_addr.is_ip(),
            table.wf(),
            PORT_START <= *old(curr),
            *old(self) matches Sock::Tcp(t) ==> (t.state_spec() == STATE_CLOSED && endpoint_of(local_addr).port == 0
                ==> exists|p: u16| PORT_START <= p && #[trigger] table@[p as int] is None),
            *old(self) is Udp ==> udp_socket is Some,
            *old(self) is Udp && old(port_map)@.contains_key(endpoint_of(local_addr).port) ==> old(port_map)@[endpoint_of(local_addr).port].1 == (IpListenEndpoint {
                addr: Some(endpoint_of(local_addr).addr),
                port: endpoint_of(local_addr).port,
            }),
        ensures
            *old(self) is Tcp ==> final(port_map)@ == old(port_map)@ && *final(self) is Tcp && (r is Ok
                ==> r == Ok::<Option<usize>, SysError>(None)),
            *old(self) matches Sock::Tcp(t) && t.state_spec() == STATE_CLOSED && t.local_spec()
                == (IpEndpoint { addr: unspecified_ipv4_spec(), port: 0 }) ==> r is Ok,
            *old(self) matches Sock::Tcp(t) ==> (*final(self) matches Sock::Tcp(t2) && (t.state_spec()
                != STATE_CLOSED ==> r == Err::<Option<usize>, SysError>(SysError::EINVAL) && t2 == t) && (
            t.state_spec() == STATE_CLOSED && t.local_spec() != (IpEndpoint {
                addr: unspecified_ipv4_spec(),
                port: 0,
            }) ==> r == Err::<Option<usize>, SysError>(SysError::EADDRINUSE) && t2 == t) && (t.state_spec()
                == STATE_CLOSED && t.local_spec() == (IpEndpoint { addr: unspecified_ipv4_spec(), port: 0 })
                ==> r == Ok::<Option<usize>, SysError>(None) && local_replaced(
                t,
                t2,
                bound_endpoint(
                    endpoint_of(local_addr),
                    if endpoint_of(local_addr).port == 0 {
                        *final(curr)
                    } else {
                        endpoint_of(local_addr).port
                    },
                ),
            )) && (t.state_spec() == STATE_CLOSED && endpoint_of(local_addr).port == 0 ==> ephemeral_pick(
                table@,
                *old(curr),
                *final(curr),
            ))),
            *old(self) is Udp && old(port_map)@.contains_key(endpoint_of(local_addr).port) ==> r
                == Ok::<Option<usize>, SysError>(Some(old(port_map)@[endpoint_of(local_addr).port].0))
                && final(port_map)@ == old(port_map)@ && *final(self) == *old(self),
            *old(self) is Udp && !old(port_map)@.contains_key(endpoint_of(local_addr).port) ==> final(port_map)@ == old(port_map)@.insert(
                endpoint_of(local_addr).port,
                (
                    sockfd,
                    IpListenEndpoint {
                        addr: Some(endpoint_of(local_addr).addr),
                        port: endpoint_of(local_addr).port,
                    },
                ),
            ) && ((*old(self))->Udp_0.local_spec() is None ==> r == Ok::<Option<usize>, SysError>(None)
                && (*final(self) matches Sock::Udp(u) && u.local_spec() == Some(IpListenEndpoint {
                addr: Some(endpoint_of(local_addr).addr),
                port: endpoint_of(local_addr).port,
            }))) && ((*old(self))->Udp_0.local_spec() is Some ==> r == Err::<Option<usize>, SysError>(
                SysError::EINVAL,
            )),
    {
        match self {
            Sock::Tcp(socket) => {
                let end_point = local_addr.into_listen_endpoint();
                let addr = match end_point.addr {
                    Some(a) => a,
                    None => unspecified_ipv4(),
                };
                match socket.bind(IpEndpoint::new(addr, end_point.port), table, curr) {
                    Ok(()) => Ok(None),
                    Err(e) => Err(e),
                }
            },
            Sock::Udp(socket) => {
                let end_point = local_addr.into_listen_endpoint();
                if let Some(prev_fd) = socket.check_bind(port_map, sockfd, end_point) {
                    return Ok(Some(prev_fd));
                }
                match udp_socket {
                    Some(s) => match socket.bind(s, end_point) {
                        Ok(()) => Ok(None),
                        Err(e) => Err(e),
                    },
                    None => Err(SysError::EINVAL),
                }
            },
            Sock::Unix => Err(SysError::EOPNOTSUPP),
        }
    }

    /// Starts listening: as `TcpSocket::listen` for a TCP socket;
    /// `EOPNOTSUPP` for a UDP socket.
    pub fn listen(&mut self, table: &mut ListenTable<H>) -> (r: Result<(), SysError>)
        requires
            !(*old(self) is Unix),
            old(table).wf(),
            *old(self) matches Sock::Tcp(t) ==> (t.state_spec() == STATE_CLOSED ==> t.local_spec().port != 0),
        ensures
            final(table).wf(),
            *old(self) is Udp ==> r == Err::<(), SysError>(SysError::EOPNOTSUPP) && final(table)@ == old(table)@,
            *old(self) matches Sock::Tcp(t) ==> (*final(self) matches Sock::Tcp(t2) && (t.state_spec()
                != STATE_CLOSED ==> r is Ok && t2 == t && final(table)@ == old(table)@) && (t.state_spec()
                == STATE_CLOSED && old(table)@[t.local_spec().port as int] is None ==> r is Ok
                && t2.state_spec() == STATE_LISTENING && t2.local_spec() == t.local_spec() && final(table)@
                == after_listen(old(table)@, listen_point(t.local_spec()))) && (t.state_spec() == STATE_CLOSED
                && old(table)@[t.local_spec().port as int] is Some ==> r == Err::<(), SysError>(
                SysError::EADDRINUSE,
            ) && t2 == t && final(table)@ == old(table)@)),
    {
        match self {
            Sock::Tcp(socket) => socket.listen(table),
            Sock::Udp(_) => Err(SysError::EOPNOTSUPP),
            Sock::Unix => Err(SysError::EOPNOTSUPP),
        }
    }

    /// One attempt at accepting: as `TcpSocket::accept` for a TCP socket;
    /// `EOPNOTSUPP` for a UDP socket.
    pub fn accept<F: Fn(H) -> bool, G: Fn(H) -> (IpEndpoint, IpEndpoint)>(
        &self,
        table: &mut ListenTable<H>,
        is_connected: &F,
        get_addrs: &G,
    ) -> (r: Result<TcpSocket<H>, SysError>)
        requires
            !(*self is Unix),
            old(table).wf(),
            forall|h: H| is_connected.requires((h,)),
            forall|h: H| get_addrs.requires((h,)),
        ensures
            final(table).wf(),
            *self is Udp ==> r == Err::<TcpSocket<H>, SysError>(SysError::EOPNOTSUPP) && final(table)@
                == old(table)@,
            self matches Sock::Tcp(t) && t.state_spec() != STATE_LISTENING ==> r == Err::<TcpSocket<H>, SysError>(
                SysError::EINVAL,
            ),
            self matches Sock::Tcp(t) && t.state_spec() == STATE_LISTENING && r is Err ==> r == Err::<
                TcpSocket<H>,
                SysError,
            >(SysError::EAGAIN) && final(table)@ == old(table)@,
            self matches Sock::Tcp(t) ==> (t.state_spec() == STATE_LISTENING && r is Err && old(table)@[t.local_spec().port as int] is Some
                ==> none_reported_connected(old(table)@[t.local_spec().port as int]->Some_0.1, *is_connected)),
            r matches Ok(s) ==> (self matches Sock::Tcp(t) && t.state_spec() == STATE_LISTENING
                && s.state_spec() == STATE_CONNECTED && s.handle_spec() is Some && accepted(
                old(table)@,
                final(table)@,
                t.local_spec().port,
                s.handle_spec()->Some_0,
                (s.local_spec(), s.peer_spec()),
                *is_connected,
                *get_addrs,
            )),
    {
        match self {
            Sock::Tcp(socket) => socket.accept(table, is_connected, get_addrs),
            Sock::Udp(_) => Err(SysError::EOPNOTSUPP),
            Sock::Unix => Err(SysError::EOPNOTSUPP),
        }
    }

    /// Connects to the IP address `remote_addr`: as `TcpSocket::connect`
    /// (with the handle `handle` of the smoltcp socket) or
    /// `UdpSocket::connect`.
    pub fn connect(
        &mut self,
        remote_addr: SocketAddr,
        handle: H,
        smol: SmolSocket<'_, '_>,
        cx: &mut smoltcp::iface::Context,
    ) -> (r: Result<(), SysError>)
        requires
            !(*old(self) is Unix),
            remote_addr.is_ip(),
            smol_matches(*old(self), smol),
            *old(self) matches Sock::Tcp(t) ==> (t.state_spec() == STATE_CLOSED ==> t.local_spec().port != 0),
        ensures
            *old(self) is Udp ==> r is Ok && (*final(self) matches Sock::Udp(u) && u.peer_spec() == Some(
                endpoint_of(remote_addr),
            )),
            *old(self) matches Sock::Tcp(t) ==> (*final(self) matches Sock::Tcp(t2) && (t.state_spec()
                != STATE_CLOSED ==> r == Err::<(), SysError>(SysError::EEXIST) && t2 == t) && (t.state_spec()
                == STATE_CLOSED && r is Err ==> (r == Err::<(), SysError>(SysError::EBADF) || r == Err::<
                (),
                SysError,
            >(SysError::EADDRNOTAVAIL)) && t2 == t) && (t.state_spec() == STATE_CLOSED && (endpoint_of(
                remote_addr,
            ).port == 0 || endpoint_of(remote_addr).addr.unspecified()) ==> r is Err) && (r is Ok
                ==> t2.state_spec() == STATE_CONNECTING && t2.handle_spec() == Some(handle))),
    {
        let remote_endpoint = remote_addr.into_endpoint();
        match (self, smol) {
            (Sock::Tcp(socket), SmolSocket::Tcp(s)) => socket.connect(remote_endpoint, handle, s, cx),
            (Sock::Udp(socket), SmolSocket::Udp(s)) => socket.connect(s, remote_endpoint),
            _ => Err(SysError::EOPNOTSUPP),
        }
    }

    /// The socket address of the peer.
    pub fn peer_addr(&self) -> (r: Result<SocketAddr, SysError>)
        requires
            !(*self is Unix),
            self matches Sock::Tcp(t) ==> t.peer_addr_result() is Ok,
            self matches Sock::Udp(u) ==> u.peer_addr_result() is Ok,
        ensures
            self matches Sock::Tcp(t) ==> r == Ok::<SocketAddr, SysError>(sockaddr_of(t.peer_addr_result()->Ok_0)),
            self matches Sock::Udp(u) ==> r == Ok::<SocketAddr, SysError>(sockaddr_of(u.peer_addr_result()->Ok_0)),
    {
        match self {
            Sock::Tcp(tcp) => Ok(SocketAddr::from_endpoint(tcp.peer_addr().unwrap())),
            Sock::Udp(udp) => Ok(SocketAddr::from_endpoint(udp.peer_addr().unwrap())),
            Sock::Unix => Err(SysError::EOPNOTSUPP),
        }
    }

    /// The socket address of the local end.
    pub fn local_addr(&self) -> (r: Result<SocketAddr, SysError>)
        requires
            !(*self is Unix),
            self matches Sock::Tcp(t) ==> t.local_addr_result() is Ok,
            self matches Sock::Udp(u) ==> u.local_spec() matches Some(l) && l.addr is Some,
        ensures
            self matches Sock::Tcp(t) ==> r == Ok::<SocketAddr, SysError>(sockaddr_of(t.local_addr_result()->Ok_0)),
            self matches Sock::Udp(u) ==> r == Ok::<SocketAddr, SysError>(sockaddr_of(u.local_addr_result()->Ok_0)),
    {
        match self {
            Sock::Tcp(tcp) => Ok(SocketAddr::from_endpoint(tcp.local_addr().unwrap())),
            Sock::Udp(udp) => Ok(SocketAddr::from_endpoint(udp.local_addr().unwrap())),
            Sock::Unix => Err(SysError::EOPNOTSUPP),
        }
    }

    /// One attempt at sending `buf`: over a TCP connection as
    /// `TcpSocket::send` (the address is not used); over UDP to
    /// `remote_addr` as `UdpSocket::send_to`, or to the connected peer as
    /// `UdpSocket::send` where no address is given.
    pub fn sendto(
        &mut self,
        smol: SmolSocket<'_, '_>,
        buf: &[u8],
        remote_addr: Option<SocketAddr>,
        waker: &core::task::Waker,
    ) -> (r: Result<usize, SysError>)
        requires
            !(*old(self) is Unix),
            smol_matches(*old(self), smol),
            *old(self) is Udp ==> (remote_addr matches Some(a) ==> a.is_ip()),
        ensures
            r matches Ok(n) ==> n <= buf@.len(),
            *old(self) is Tcp ==> *final(self) == *old(self),
            *old(self) matches Sock::Tcp(t) ==> r == tcp_send_outcome(
                t.state_spec() == STATE_CONNECTING,
                tcp_under(smol),
                buf@.len() as int,
            ),
            *old(self) is Tcp ==> (smol matches SmolSocket::Tcp(s) && (r is Err ==> tcp_tx(*final(s)) == tcp_tx(
                tcp_under(smol),
            )) && (r matches Ok(n) ==> tcp_tx(*final(s)) == tcp_tx(tcp_under(smol)) + buf@.take(n as int))
                && tcp_rx(*final(s)) == tcp_rx(tcp_under(smol))),
            *old(self) matches Sock::Udp(u) ==> (smol matches SmolSocket::Udp(s) && udp_rx(*final(s)) == udp_rx(
                udp_under(smol),
            ) && (remote_addr matches Some(a) ==> datagram_sent(
                udp_tx(udp_under(smol)),
                udp_tx(*final(s)),
                endpoint_of(a),
                buf@,
                r,
            )) && (remote_addr is None && u.peer_spec() is None ==> udp_tx(*final(s)) == udp_tx(
                udp_under(smol),
            )) && (remote_addr is None ==> (u.peer_spec() matches Some(p) ==> datagram_sent(
                udp_tx(udp_under(smol)),
                udp_tx(*final(s)),
                p,
                buf@,
                r,
            )))),
            *old(self) matches Sock::Udp(u) ==> (*final(self) matches Sock::Udp(
                u2,
            ) && u2.peer_spec() == u.peer_spec() && u2.handle_spec() == u.handle_spec()
                && u2.nonblocking_spec() == u.nonblocking_spec() && (remote_addr matches Some(a) && (
            endpoint_of(a).port == 0 || endpoint_of(a).addr.unspecified()) ==> r == Err::<usize, SysError>(
                SysError::EINVAL,
            ) && u2.local_spec() == u.local_spec()) && (remote_addr matches Some(a) && !(endpoint_of(
                a,
            ).port == 0 || endpoint_of(a).addr.unspecified()) ==> sent(u, u2, buf@.len(), udp_has_room(udp_under(smol)), r))
                && (remote_addr is None && u.peer_spec() is None ==> r == Err::<usize, SysError>(
                SysError::ENOTCONN,
            ) && u2.local_spec() == u.local_spec()) && (remote_addr is None && u.peer_spec() is Some
                ==> sent(u, u2, buf@.len(), udp_has_room(udp_under(smol)), r))),
    {
        match (self, smol) {
            (Sock::Tcp(tcp), SmolSocket::Tcp(s)) => tcp.send(s, buf, waker),
            (Sock::Udp(udp), SmolSocket::Udp(s)) => match remote_addr {
                Some(addr) => udp.send_to(s, buf, addr.into_endpoint(), waker),
                None => udp.send(s, buf, waker),
            },
            _ => Err(SysError::EOPNOTSUPP),
        }
    }

    /// One attempt at receiving into `buf`: as `TcpSocket::recv` or
    /// `UdpSocket::recv_from`, with the socket address of the peer.
    pub fn recvfrom(&mut self, smol: SmolSocket<'_, '_>, buf: &mut [u8], waker: &core::task::Waker) -> (r: Result<(usize, SocketAddr), SysError>)
        requires
            !(*old(self) is Unix),
            smol_matches(*old(self), smol),
            *old(self) matches Sock::Tcp(t) ==> t.peer_addr_result() is Ok,
            *old(self) matches Sock::Udp(u) ==> u.peer_addr_result() is Ok,
        ensures
            final(buf)@.len() == old(buf)@.len(),
            *final(self) == *old(self),
            *old(self) matches Sock::Tcp(t) ==> r == with_peer(
                tcp_recv_outcome(tcp_under(smol), old(buf)@.len() as int),
                sockaddr_of(t.peer_addr_result()->Ok_0),
            ),
            *old(self) is Tcp && r is Err ==> final(buf)@ == old(buf)@,
            *old(self) is Tcp ==> (r matches Ok((n, _)) ==> final(buf)@ == tcp_rx(tcp_under(smol)).take(
                n as int,
            ) + old(buf)@.skip(n as int)),
            *old(self) is Tcp ==> (smol matches SmolSocket::Tcp(s) && (r is Err ==> tcp_rx(*final(s)) == tcp_rx(
                tcp_under(smol),
            )) && (r matches Ok((n, _)) ==> tcp_rx(*final(s)) == tcp_rx(tcp_under(smol)).skip(n as int))
                && tcp_tx(*final(s)) == tcp_tx(tcp_under(smol))),
            *old(self) matches Sock::Udp(u) ==> (smol matches SmolSocket::Udp(s) && udp_tx(*final(s)) == udp_tx(
                udp_under(smol),
            ) && (u.local_spec() is Some && udp_rx(udp_under(smol)).len() > 0 ==> udp_rx(*final(s))
                == udp_rx(udp_under(smol)).drop_first()) && (!(u.local_spec() is Some && udp_rx(
                udp_under(smol),
            ).len() > 0) ==> udp_rx(*final(s)) == udp_rx(udp_under(smol)))),
            *old(self) matches Sock::Udp(u) && u.local_spec() is None ==> r == Err::<(usize, SocketAddr), SysError>(
                SysError::ENOTCONN,
            ) && final(buf)@ == old(buf)@,
            *old(self) matches Sock::Udp(u) && u.local_spec() is Some && udp_rx(udp_under(smol)).len() == 0
                ==> r == Err::<(usize, SocketAddr), SysError>(SysError::EAGAIN) && final(buf)@ == old(buf)@,
            *old(self) matches Sock::Udp(u) ==> (u.local_spec() is Some && udp_rx(udp_under(smol)).len() > 0
                ==> r == Ok::<(usize, SocketAddr), SysError>(
                (old(buf)@.len() as usize, sockaddr_of(u.peer_addr_result()->Ok_0)),
            ) && final(buf)@ == received_into(udp_rx(udp_under(smol))[0], old(buf)@)),
    {
        match (self, smol) {
            (Sock::Udp(udp), SmolSocket::Udp(s)) => {
                let len = match udp.recv_from(s, buf, waker) {
                    Ok(len) => len,
                    Err(e) => return Err(e),
                };
                Ok((len, SocketAddr::from_endpoint(udp.peer_addr().unwrap())))
            },
            (Sock::Tcp(tcp), SmolSocket::Tcp(s)) => {
                let len = match tcp.recv(s, buf, waker) {
                    Ok(len) => len,
                    Err(e) => return Err(e),
                };
                Ok((len, SocketAddr::from_endpoint(tcp.peer_addr().unwrap())))
            },
            _ => Err(SysError::EOPNOTSUPP),
        }
    }

    /// Whether a UDP socket can receive and send, as `UdpSocket::poll`.
    pub fn poll(&self, smol: SmolSocket<'_, '_>, waker: &core::task::Waker) -> (r: NetPollState)
        requires
            *self is Udp,
            smol is Udp,
        ensures
            !r.hangup,
            self matches Sock::Udp(u) && u.local_spec() is None ==> !r.recvable && !r.sendable,
            self matches Sock::Udp(u) && u.local_spec() is Some ==> r.recvable == udp_rx_waiting(
                udp_under(smol),
            ),
            self matches Sock::Udp(u) && u.local_spec() is Some ==> r.sendable == udp_has_room(
                udp_under(smol),
            ),
    {
        match (self, smol) {
            (Sock::Udp(udp), SmolSocket::Udp(s)) => udp.poll(s, waker),
            _ => NetPollState { recvable: false, sendable: false, hangup: false },
        }
    }

    /// Shuts the socket down: as `TcpSocket::shutdown` for a TCP socket;
    /// a UDP socket's smoltcp socket is closed (the interface is to be
    /// polled after).
    pub fn shutdown(&mut self, method: u8, table: &mut ListenTable<H>, smol: SmolSocket<'_, '_>) -> (r: Result<ShutdownAction<H>, SysError>)
        requires
            !(*old(self) is Unix),
            smol_matches(*old(self), smol),
            old(table).wf(),
            *old(self) matches Sock::Tcp(t) ==> (t.state_spec() == STATE_CONNECTED ==> t.handle_spec() is Some),
        ensures
            final(table).wf(),
            *old(self) matches Sock::Tcp(t) ==> (*final(self) matches Sock::Tcp(t2) && shut_down(
                t,
                t2,
                method,
                old(table)@,
                final(table)@,
                r,
            )),
            *old(self) is Udp ==> (r matches Ok(ShutdownAction::Nothing) && final(table)@ == old(table)@
                && *final(self) == *old(self)),
            *old(self) is Udp ==> (smol matches SmolSocket::Udp(s) && udp_rx(*final(s)) == Seq::<
                Seq<u8>,
            >::empty() && udp_tx(*final(s)) == Seq::<(IpEndpoint, Seq<u8>)>::empty()),
    {
        match (self, smol) {
            (Sock::Tcp(tcp), SmolSocket::Tcp(_)) => tcp.shutdown(method, table),
            (Sock::Udp(udp), SmolSocket::Udp(s)) => match udp.shutdown(s) {
                Ok(()) => Ok(ShutdownAction::Nothing),
                Err(e) => Err(e),
            },
            _ => Err(SysError::EOPNOTSUPP),
        }
    }
}

/// The file flag of a descriptor open for reading and writing.
pub const O_RDWR: u32 = 2;

/// The file flag of a descriptor whose operations do not wait.
pub const O_NONBLOCK: u32 = 0o4000;

/// A socket, with its type and the flags of the file it is opened as.
pub struct Socket<H> {
    /// the type of the socket (STREAM, DGRAM, ...)
    pub types: SocketType,
    /// the TCP or UDP socket
    pub sk: Sock<H>,
    /// the open flags of the socket's file (`O_RDWR`, `O_NONBLOCK`)
    pub flags: u32,
}

impl<H: Copy> Socket<H> {
    /// A new socket of family `domain` and type `sockettype`: TCP for an
    /// IPv4 or IPv6 stream, UDP for an IPv4 or IPv6 datagram socket, whose
    /// smoltcp socket `new_udp` makes. `nonblock` makes it nonblocking; its
    /// file is open for reading and writing, and nonblocking with it.
    pub fn new<F: FnOnce() -> H>(domain: SaFamily, sockettype: SocketType, nonblock: bool, new_udp: F) -> (r: Self)
        requires
            domain != SaFamily::AF_Unix,
            sockettype == SocketType::STREAM || sockettype == SocketType::DGRAM,
            new_udp.requires(()),
        ensures
            r.types == sockettype,
            r.flags == (if nonblock { O_RDWR | O_NONBLOCK } else { O_RDWR }),
            sockettype == SocketType::STREAM ==> (r.sk matches Sock::Tcp(t) && t.state_spec() == STATE_CLOSED
                && t.nonblocking_spec() == nonblock && t.handle_spec() is None),
            sockettype == SocketType::DGRAM ==> (r.sk matches Sock::Udp(u) && u.local_spec() is None
                && u.peer_spec() is None && u.nonblocking_spec() == nonblock && new_udp.ensures(
                (),
                u.handle_spec(),
            )),
    {
        let mut sk = match sockettype {
            SocketType::STREAM => Sock::Tcp(TcpSocket::new()),
            _ => Sock::Udp(UdpSocket::new(new_udp())),
        };
        let flags = if nonblock {
            sk.set_nonblocking();
            O_RDWR | O_NONBLOCK
        } else {
            O_RDWR
        };
        Socket { types: sockettype, sk, flags }
    }

    /// A socket of the type of `another` over `sk`, its file open for
    /// reading and writing.
    pub fn from_another(another: &Self, sk: Sock<H>) -> (r: Self)
        ensures
            r.types == another.types,
            r.sk == sk,
            r.flags == O_RDWR,
    {
        Self { types: another.types, sk, flags: O_RDWR }
    }
}

} // verus!

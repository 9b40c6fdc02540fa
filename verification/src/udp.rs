//! The UDP socket: its local and peer endpoints, the port it binds, and one
//! attempt at each transfer (the waiting between attempts is left to the
//! caller).
use vstd::prelude::*;
use crate::endpoint::{IpEndpoint, IpListenEndpoint, to_ipendpoint, unspecified_listen_endpoint};
use crate::error::SysError;
use crate::port_map::PortMap;
use crate::smol::{
    UdpSendError, lemma_datagrams_push, udp_bind, udp_can_recv, udp_can_send, udp_close,
    udp_has_room, udp_recv_slice, udp_register_recv_waker, udp_register_send_waker, udp_rx,
    udp_send_slice, udp_tx, udp_tx_slots, udp_tx_slot_count, lemma_drop_filler, udp_rx_slots,
    udp_rx_waiting,
};

verus! {

/// Size of the transmit buffer of a UDP socket.
pub const UDP_SEND_BUFFER: usize = 65536;

/// Size of the receive buffer of a UDP socket.
pub const UDP_RECV_BUFFER: usize = 65536;

/// Whether a socket can receive, can send, or has been hung up.
#[derive(Debug, Clone, Copy, PartialEq, Eq, Structural)]
pub struct NetPollState {
    pub recvable: bool,
    pub sendable: bool,
    pub hangup: bool,
}

/// A UDP socket over the smoltcp socket with handle `H`.
pub struct UdpSocket<H> {
    handle: H,
    /// the endpoint it is bound to, once bound
    local_addr: Option<IpListenEndpoint>,
    /// the endpoint it is connected to, once connected
    peer_addr: Option<IpEndpoint>,
    /// whether transfers return at once instead of waiting
    nonblock: bool,
}

/// The endpoint of a bound listen endpoint, where it has an address.
pub open spec fn endpoint_of_listen(l: IpListenEndpoint) -> IpEndpoint {
    IpEndpoint { addr: l.addr->Some_0, port: l.port }
}

impl<H: Copy> UdpSocket<H> {
    /// The handle of the smoltcp socket.
    pub closed spec fn handle_spec(&self) -> H {
        self.handle
    }

    /// The endpoint it is bound to.
    pub closed spec fn local_spec(&self) -> Option<IpListenEndpoint> {
        self.local_addr
    }

    /// The endpoint it is connected to.
    pub closed spec fn peer_spec(&self) -> Option<IpEndpoint> {
        self.peer_addr
    }

    /// Whether transfers return at once.
    pub closed spec fn nonblocking_spec(&self) -> bool {
        self.nonblock
    }

    /// What `local_addr` returns: the endpoint bound to, `ENOTCONN` where
    /// the socket is not bound.
    pub open spec fn local_addr_result(&self) -> Result<IpEndpoint, SysError> {
        match self.local_spec() {
            Some(l) => Ok(endpoint_of_listen(l)),
            None => Err(SysError::ENOTCONN),
        }
    }

    /// What `peer_addr` returns: the endpoint connected to, `ENOTCONN`
    /// where the socket is not connected.
    pub open spec fn peer_addr_result(&self) -> Result<IpEndpoint, SysError> {
        match self.peer_spec() {
            Some(p) => Ok(p),
            None => Err(SysError::ENOTCONN),
        }
    }

    /// An unbound, unconnected, blocking socket over the smoltcp socket
    /// `handle`.
    pub fn new(handle: H) -> (r: Self)
        ensures
            r.handle_spec() == handle,
            r.local_spec() is None,
            r.peer_spec() is None,
            !r.nonblocking_spec(),
    {
        UdpSocket { handle, local_addr: None, peer_addr: None, nonblock: false }
    }

    /// The handle of the smoltcp socket.
    pub fn handle(&self) -> (r: H)
        ensures
            r == self.handle_spec(),
    {
        self.handle
    }

    /// The endpoint the socket is bound to, if any.
    pub fn local_endpoint(&self) -> (r: Option<IpListenEndpoint>)
        ensures
            r == self.local_spec(),
    {
        self.local_addr
    }

    /// The endpoint it is bound to; `ENOTCONN` where it is not bound.
    pub fn local_addr(&self) -> (r: Result<IpEndpoint, SysError>)
        requires
            self.local_spec() matches Some(l) ==> l.addr is Some,
        ensures
            r == self.local_addr_result(),
    {
        match self.local_addr {
            Some(local) => Ok(to_ipendpoint(local)),
            None => Err(SysError::ENOTCONN),
        }
    }

    /// The endpoint it is connected to; `ENOTCONN` where it is not
    /// connected.
    pub fn peer_addr(&self) -> (r: Result<IpEndpoint, SysError>)
        ensures
            r == self.peer_addr_result(),
    {
        self.remote_endpoint()
    }

    /// The endpoint it is connected to; `ENOTCONN` where it is not
    /// connected.
    pub fn remote_endpoint(&self) -> (r: Result<IpEndpoint, SysError>)
        ensures
            r == self.peer_addr_result(),
    {
        match self.peer_addr {
            Some(addr) => Ok(addr),
            None => Err(SysError::ENOTCONN),
        }
    }

    /// Whether transfers return at once instead of waiting.
    pub fn is_nonblocking(&self) -> (r: bool)
        ensures
            r == self.nonblocking_spec(),
    {
        self.nonblock
    }

    /// Makes transfers return at once (`true`) or wait (`false`).
    pub fn set_nonblocking(&mut self, nonblock: bool)
        ensures
            final(self).nonblocking_spec() == nonblock,
            final(self).handle_spec() == old(self).handle_spec(),
            final(self).local_spec() == old(self).local_spec(),
            final(self).peer_spec() == old(self).peer_spec(),
    {
        self.nonblock = nonblock;
    }

    /// Binds the socket to `bind_addr` (`EINVAL` where it is bound
    /// already, with nothing changed), and binds its smoltcp socket
    /// `socket` to it too, whatever smoltcp answers.
    pub fn bind(&mut self, socket: &mut smoltcp::socket::udp::Socket<'_>, bind_addr: IpListenEndpoint) -> (r: Result<(), SysError>)
        ensures
            old(self).local_spec() is Some ==> r == Err::<(), SysError>(SysError::EINVAL)
                && final(self).local_spec() == old(self).local_spec(),
            old(self).local_spec() is None ==> r is Ok && final(self).local_spec() == Some(bind_addr),
            final(self).handle_spec() == old(self).handle_spec(),
            final(self).peer_spec() == old(self).peer_spec(),
            final(self).nonblocking_spec() == old(self).nonblocking_spec(),
            udp_rx(*final(socket)) == udp_rx(*old(socket)),
            udp_tx_slots(*final(socket)) == udp_tx_slots(*old(socket)),
            udp_tx_slot_count(*final(socket)) == udp_tx_slot_count(*old(socket)),
    {
        if self.local_addr.is_some() {
            return Err(SysError::EINVAL);
        }
        let _ = udp_bind(socket, bind_addr);
        self.local_addr = Some(bind_addr);
        Ok(())
    }

    /// Connects the socket to `addr`; an unbound socket is first bound to
    /// the listen endpoint with no address and port 0.
    pub fn connect(&mut self, socket: &mut smoltcp::socket::udp::Socket<'_>, addr: IpEndpoint) -> (r: Result<(), SysError>)
        ensures
            r is Ok,
            final(self).peer_spec() == Some(addr),
            old(self).local_spec() is None ==> final(self).local_spec() == Some(
                IpListenEndpoint { addr: None, port: 0 },
            ),
            old(self).local_spec() is Some ==> final(self).local_spec() == old(self).local_spec(),
            final(self).handle_spec() == old(self).handle_spec(),
            final(self).nonblocking_spec() == old(self).nonblocking_spec(),
    {
        if self.local_addr.is_none() {
            let _ = self.bind(socket, unspecified_listen_endpoint());
        }
        self.peer_addr = Some(addr);
        Ok(())
    }

    /// Checks whether `bound_addr` can be bound for descriptor `fd`: where
    /// its port is held, by the same endpoint, that holder's descriptor is
    /// returned; where it is free, `fd` with `bound_addr` takes it.
    pub fn check_bind(&self, port_map: &mut PortMap, fd: usize, bound_addr: IpListenEndpoint) -> (r: Option<usize>)
        requires
            old(port_map)@.contains_key(bound_addr.port) ==> old(port_map)@[bound_addr.port].1
                == bound_addr,
        ensures
            old(port_map)@.contains_key(bound_addr.port) ==> r == Some(
                old(port_map)@[bound_addr.port].0,
            ) && final(port_map)@ == old(port_map)@,
            !old(port_map)@.contains_key(bound_addr.port) ==> r is None && final(port_map)@ == old(
                port_map,
            )@.insert(bound_addr.port, (fd, bound_addr)),
    {
        match port_map.get(bound_addr.port) {
            Some((prev_fd, _addr)) => Some(prev_fd),
            None => {
                port_map.insert(bound_addr.port, fd, bound_addr);
                None
            },
        }
    }

    /// One attempt at sending `buf` as one datagram to `remote_addr`:
    /// `EINVAL` for port 0 or an unspecified address, with nothing changed;
    /// otherwise as `send_buf`.
    pub fn send_to(
        &mut self,
        socket: &mut smoltcp::socket::udp::Socket<'_>,
        buf: &[u8],
        remote_addr: IpEndpoint,
        waker: &core::task::Waker,
    ) -> (r: Result<usize, SysError>)
        ensures
            (remote_addr.port == 0 || remote_addr.addr.unspecified()) ==> r == Err::<usize, SysError>(
                SysError::EINVAL,
            ) && final(self).local_spec() == old(self).local_spec(),
            !(remote_addr.port == 0 || remote_addr.addr.unspecified()) ==> sent(
                *old(self),
                *final(self),
                buf@.len(),
                udp_has_room(*old(socket)),
                r,
            ),
            final(self).handle_spec() == old(self).handle_spec(),
            final(self).peer_spec() == old(self).peer_spec(),
            final(self).nonblocking_spec() == old(self).nonblocking_spec(),
            datagram_sent(udp_tx(*old(socket)), udp_tx(*final(socket)), remote_addr, buf@, r),
            udp_rx(*final(socket)) == udp_rx(*old(socket)),
    {
        if remote_addr.port == 0 || remote_addr.addr.is_unspecified() {
            return Err(SysError::EINVAL);
        }
        self.send_buf(socket, buf, remote_addr, waker)
    }

    /// One attempt at sending `buf` as one datagram to the connected peer:
    /// `ENOTCONN` where the socket is not connected; otherwise as
    /// `send_buf`.
    pub fn send(&mut self, socket: &mut smoltcp::socket::udp::Socket<'_>, buf: &[u8], waker: &core::task::Waker) -> (r: Result<usize, SysError>)
        ensures
            old(self).peer_spec() is None ==> r == Err::<usize, SysError>(SysError::ENOTCONN)
                && final(self).local_spec() == old(self).local_spec(),
            old(self).peer_spec() is Some ==> sent(
                *old(self),
                *final(self),
                buf@.len(),
                udp_has_room(*old(socket)),
                r,
            ),
            final(self).handle_spec() == old(self).handle_spec(),
            final(self).peer_spec() == old(self).peer_spec(),
            final(self).nonblocking_spec() == old(self).nonblocking_spec(),
            old(self).peer_spec() is None ==> udp_tx(*final(socket)) == udp_tx(*old(socket)),
            old(self).peer_spec() matches Some(p) ==> datagram_sent(
                udp_tx(*old(socket)),
                udp_tx(*final(socket)),
                p,
                buf@,
                r,
            ),
            udp_rx(*final(socket)) == udp_rx(*old(socket)),
    {
        let remote_endpoint = match self.remote_endpoint() {
            Ok(e) => e,
            Err(e) => return Err(e),
        };
        self.send_buf(socket, buf, remote_endpoint, waker)
    }

    /// One attempt at sending `buf` as one datagram to `remote_addr`; an
    /// unbound socket is first bound to the listen endpoint with no address
    /// and port 0. Where the transmit buffer has a free slot, the datagram
    /// is handed to smoltcp and the length of `buf` returned, whatever
    /// smoltcp answers; otherwise `waker` is registered and `EAGAIN`.
    pub fn send_buf(
        &mut self,
        socket: &mut smoltcp::socket::udp::Socket<'_>,
        buf: &[u8],
        remote_addr: IpEndpoint,
        waker: &core::task::Waker,
    ) -> (r: Result<usize, SysError>)
        ensures
            sent(*old(self), *final(self), buf@.len(), udp_has_room(*old(socket)), r),
            final(self).handle_spec() == old(self).handle_spec(),
            final(self).peer_spec() == old(self).peer_spec(),
            final(self).nonblocking_spec() == old(self).nonblocking_spec(),
            datagram_sent(udp_tx(*old(socket)), udp_tx(*final(socket)), remote_addr, buf@, r),
            udp_rx(*final(socket)) == udp_rx(*old(socket)),
    {
        if self.local_addr.is_none() {
            let _ = self.bind(socket, unspecified_listen_endpoint());
        }
        let ghost slots = udp_tx_slots(*socket);
        let attempt = if udp_can_send(socket) {
            Some(udp_send_slice(socket, buf, remote_addr))
        } else {
            None
        };
        proof {
            lemma_datagrams_push(slots, (remote_addr, buf@));
        }
        let (r, wait) = send_outcome(attempt, buf.len());
        if wait {
            udp_register_send_waker(socket, waker);
        }
        r
    }

    /// One attempt at receiving one datagram into `buf`: `ENOTCONN` where
    /// the socket is not bound; where a datagram waits, it is copied into
    /// `buf` (as much as fits) and the length of `buf` is returned;
    /// otherwise `waker` is registered and `EAGAIN`.
    pub fn recv_from(&self, socket: &mut smoltcp::socket::udp::Socket<'_>, buf: &mut [u8], waker: &core::task::Waker) -> (r: Result<usize, SysError>)
        ensures
            final(buf)@.len() == old(buf)@.len(),
            self.local_spec() is None ==> r == Err::<usize, SysError>(SysError::ENOTCONN),
            self.local_spec() is Some ==> r == Ok::<usize, SysError>(old(buf)@.len() as usize) || r
                == Err::<usize, SysError>(SysError::EAGAIN),
            datagram_received(
                self.local_spec() is Some,
                udp_rx(*old(socket)),
                udp_rx(*final(socket)),
                old(buf)@,
                final(buf)@,
                r,
            ),
            udp_tx(*final(socket)) == udp_tx(*old(socket)),
    {
        self.recv_buf(socket, buf, waker)
    }

    /// As `recv_from`.
    pub fn recv_buf(&self, socket: &mut smoltcp::socket::udp::Socket<'_>, buf: &mut [u8], waker: &core::task::Waker) -> (r: Result<usize, SysError>)
        ensures
            final(buf)@.len() == old(buf)@.len(),
            self.local_spec() is None ==> r == Err::<usize, SysError>(SysError::ENOTCONN),
            self.local_spec() is Some ==> r == Ok::<usize, SysError>(old(buf)@.len() as usize) || r
                == Err::<usize, SysError>(SysError::EAGAIN),
            datagram_received(
                self.local_spec() is Some,
                udp_rx(*old(socket)),
                udp_rx(*final(socket)),
                old(buf)@,
                final(buf)@,
                r,
            ),
            udp_tx(*final(socket)) == udp_tx(*old(socket)),
    {
        if self.local_addr.is_none() {
            return Err(SysError::ENOTCONN);
        }
        let ghost slots = udp_rx_slots(*socket);
        let received = if udp_can_recv(socket) {
            udp_recv_slice(socket, buf)
        } else {
            Err(())
        };
        proof {
            lemma_drop_filler(slots);
        }
        let (r, wait) = recv_outcome(received, buf.len());
        if wait {
            udp_register_recv_waker(socket, waker);
        }
        r
    }

    /// Closes the smoltcp socket (the interface is to be polled after).
    pub fn shutdown(&self, socket: &mut smoltcp::socket::udp::Socket<'_>) -> (r: Result<(), SysError>)
        ensures
            r is Ok,
            udp_rx(*final(socket)) == Seq::<Seq<u8>>::empty(),
            udp_tx(*final(socket)) == Seq::<(IpEndpoint, Seq<u8>)>::empty(),
            udp_tx_slot_count(*final(socket)) == udp_tx_slot_count(*old(socket)),
    {
        udp_close(socket);
        Ok(())
    }

    /// Whether the socket can receive (its receive buffer is not empty) and
    /// can send (its transmit buffer has a free slot); an unbound socket can
    /// do neither. Where it cannot, `waker` is registered for that
    /// direction.
    pub fn poll(&self, socket: &mut smoltcp::socket::udp::Socket<'_>, waker: &core::task::Waker) -> (r: NetPollState)
        ensures
            !r.hangup,
            self.local_spec() is None ==> !r.recvable && !r.sendable,
            self.local_spec() is Some ==> r.recvable == udp_rx_waiting(*old(socket)),
            self.local_spec() is Some ==> r.sendable == udp_has_room(*old(socket)),
            udp_rx_slots(*final(socket)) == udp_rx_slots(*old(socket)),
            udp_tx_slots(*final(socket)) == udp_tx_slots(*old(socket)),
            udp_tx_slot_count(*final(socket)) == udp_tx_slot_count(*old(socket)),
    {
        if self.local_addr.is_none() {
            return NetPollState { recvable: false, sendable: false, hangup: false };
        }
        let can_recv = udp_can_recv(socket);
        let can_send = udp_can_send(socket);
        let (state, wait_recv, wait_send) = poll_state(can_recv, can_send);
        if wait_recv {
            udp_register_recv_waker(socket, waker);
        }
        if wait_send {
            udp_register_send_waker(socket, waker);
        }
        state
    }
}

/// What a send attempt did to the datagrams of the transmit buffer: on
/// `EAGAIN` nothing; otherwise at most the one datagram of `data` to
/// `remote`, joined at the end, and none where `remote` cannot be
/// addressed.
pub open spec fn datagram_sent(
    tx_before: Seq<(IpEndpoint, Seq<u8>)>,
    tx_after: Seq<(IpEndpoint, Seq<u8>)>,
    remote: IpEndpoint,
    data: Seq<u8>,
    r: Result<usize, SysError>,
) -> bool {
    &&& r is Err ==> tx_after == tx_before
    &&& r is Ok ==> tx_after == tx_before || tx_after == tx_before.push((remote, data))
    &&& (remote.port == 0 || remote.addr.unspecified()) ==> tx_after == tx_before
}

/// What a receive attempt of a socket (bound or not) did: an unbound
/// socket reads nothing; a bound one reads the oldest waiting datagram
/// into the front of the buffer, as much as fits, and returns the
/// buffer's length, or, where none waits, `EAGAIN`; whatever is not read
/// stays as it was.
pub open spec fn datagram_received(
    bound: bool,
    rx_before: Seq<Seq<u8>>,
    rx_after: Seq<Seq<u8>>,
    buf_before: Seq<u8>,
    buf_after: Seq<u8>,
    r: Result<usize, SysError>,
) -> bool {
    &&& !bound ==> r == Err::<usize, SysError>(SysError::ENOTCONN) && rx_after == rx_before && buf_after
        == buf_before
    &&& bound && rx_before.len() == 0 ==> r == Err::<usize, SysError>(SysError::EAGAIN) && rx_after
        == rx_before && buf_after == buf_before
    &&& bound && rx_before.len() > 0 ==> ({
        let n = vstd::math::min(buf_before.len() as int, rx_before[0].len() as int);
        &&& r == Ok::<usize, SysError>(buf_before.len() as usize)
        &&& buf_after == rx_before[0].take(n) + buf_before.skip(n)
        &&& rx_after == rx_before.drop_first()
    })
}

/// What a send attempt returns, and whether it waits for room, from what
/// smoltcp's `send_slice` answered (none where the transmit buffer had no
/// free slot, so it was not asked): without a slot, `EAGAIN` and wait;
/// otherwise the whole length counts as sent, and a full buffer is waited
/// for.
pub open spec fn send_outcome_spec(attempt: Option<Result<(), UdpSendError>>, len: usize) -> (Result<usize, SysError>, bool) {
    match attempt {
        None => (Err(SysError::EAGAIN), true),
        Some(Err(UdpSendError::BufferFull)) => (Ok(len), true),
        Some(_) => (Ok(len), false),
    }
}

/// What a send attempt returns, and whether it waits for room.
pub fn send_outcome(attempt: Option<Result<(), UdpSendError>>, len: usize) -> (r: (Result<usize, SysError>, bool))
    ensures
        r == send_outcome_spec(attempt, len),
{
    match attempt {
        None => (Err(SysError::EAGAIN), true),
        Some(Err(UdpSendError::BufferFull)) => (Ok(len), true),
        Some(_) => (Ok(len), false),
    }
}

/// What a receive attempt returns, and whether it waits for a datagram,
/// from what smoltcp's `recv_slice` answered (an error where it was not
/// asked): the length of the buffer where a datagram was read; otherwise
/// `EAGAIN` and wait.
pub open spec fn recv_outcome_spec(received: Result<usize, ()>, len: usize) -> (Result<usize, SysError>, bool) {
    match received {
        Ok(_) => (Ok(len), false),
        Err(()) => (Err(SysError::EAGAIN), true),
    }
}

/// What a receive attempt returns, and whether it waits for a datagram.
pub fn recv_outcome(received: Result<usize, ()>, len: usize) -> (r: (Result<usize, SysError>, bool))
    ensures
        r == recv_outcome_spec(received, len),
{
    match received {
        Ok(_) => (Ok(len), false),
        Err(()) => (Err(SysError::EAGAIN), true),
    }
}

/// The poll state of a bound socket from smoltcp's answers, and whether to
/// wait for receiving and for sending: each direction is waited for where
/// it is not ready.
pub open spec fn poll_state_spec(can_recv: bool, can_send: bool) -> (NetPollState, bool, bool) {
    (NetPollState { recvable: can_recv, sendable: can_send, hangup: false }, !can_recv, !can_send)
}

/// The poll state of a bound socket, and the directions to wait for.
pub fn poll_state(can_recv: bool, can_send: bool) -> (r: (NetPollState, bool, bool))
    ensures
        r == poll_state_spec(can_recv, can_send),
{
    (NetPollState { recvable: can_recv, sendable: can_send, hangup: false }, !can_recv, !can_send)
}

/// What a send attempt leaves: the socket bound (to the listen endpoint
/// with no address and port 0 where it was not), and, where the transmit
/// buffer had a free slot (`room`), the whole datagram taken, otherwise
/// `EAGAIN`.
pub open spec fn sent<H: Copy>(before: UdpSocket<H>, after: UdpSocket<H>, len: nat, room: bool, r: Result<usize, SysError>) -> bool {
    &&& before.local_spec() is None ==> after.local_spec() == Some(
        IpListenEndpoint { addr: None, port: 0 },
    )
    &&& before.local_spec() is Some ==> after.local_spec() == before.local_spec()
    &&& r == if room {
        Ok::<usize, SysError>(len as usize)
    } else {
        Err::<usize, SysError>(SysError::EAGAIN)
    }
}

/// The step after an attempt of a UDP transfer: a nonblocking socket
/// returns the outcome at once; a blocking one suspends on `EAGAIN`, and
/// any other error ends the transfer as `EINTR`.
pub fn block_on_step<T>(nonblocking: bool, ret: Result<T, SysError>) -> (r: crate::tcp::BlockOnStep<T>)
    ensures
        nonblocking ==> r == crate::tcp::BlockOnStep::Return(ret),
        !nonblocking && ret is Ok ==> r == crate::tcp::BlockOnStep::Return(ret),
        !nonblocking && ret == Err::<T, SysError>(SysError::EAGAIN) ==> r is Suspend,
        !nonblocking && ret is Err && ret != Err::<T, SysError>(SysError::EAGAIN) ==> r
            == crate::tcp::BlockOnStep::<T>::Return(Err(SysError::EINTR)),
{
    if nonblocking {
        crate::tcp::BlockOnStep::Return(ret)
    } else {
        match ret {
            Ok(t) => crate::tcp::BlockOnStep::Return(Ok(t)),
            Err(SysError::EAGAIN) => crate::tcp::BlockOnStep::Suspend,
            Err(_) => crate::tcp::BlockOnStep::Return(Err(SysError::EINTR)),
        }
    }
}

/// After connecting, `peer_addr` returns the endpoint connected to; after
/// binding to an endpoint with an address, `local_addr` returns that
/// endpoint.
pub proof fn lemma_connect_bind_then_addrs<H: Copy>(s: UdpSocket<H>, addr: IpEndpoint, bound: IpListenEndpoint)
    requires
        s.peer_spec() == Some(addr),
        s.local_spec() == Some(bound),
        bound.addr is Some,
    ensures
        s.peer_addr_result() == Ok::<IpEndpoint, SysError>(addr),
        s.local_addr_result() == Ok::<IpEndpoint, SysError>(
            IpEndpoint { addr: bound.addr->Some_0, port: bound.port },
        ),
{
}

} // verus!

//! The TCP socket: its connection state machine, its local and peer
//! endpoints, the ports it binds and listens on, and one attempt at each
//! operation (the waiting between attempts is left to the caller).
use vstd::prelude::*;
use std::collections::VecDeque;
use crate::endpoint::{
    IpAddress, IpEndpoint, IpListenEndpoint, unspecified_ipv4, unspecified_ipv4_endpoint,
    unspecified_ipv4_spec, unspecified_ipv6_endpoint, unspecified_ipv6_spec,
};
use crate::error::SysError;
use crate::listen_table::{
    ListenTable, PORT_NUM, PORT_START, PortView, accepted, after_listen, after_unlisten, queues_request,
    ephemeral_pick, none_reported_connected,
};
use crate::smol::{
    TcpConnectError, TcpState, tcp_can_recv, tcp_can_send, tcp_close, tcp_connect, tcp_rx, tcp_tx,
    tcp_tx_capacity, tcp_recv_queue, tcp_recv_slice, tcp_register_recv_waker, tcp_register_send_waker,
    tcp_send_slice, tcp_state, tcp_state_of, tcp_ends_of, after_close,
};
use smoltcp::socket::tcp::Socket as SmolTcpSocket;

verus! {

/// `shutdown` method: close the read direction.
pub const SHUT_RD: u8 = 0;

/// `shutdown` method: close the write direction.
pub const SHUT_WR: u8 = 1;

/// `shutdown` method: close both directions.
pub const SHUT_RDWR: u8 = 2;

/// Shutdown flag: the read direction is closed.
pub const RCV_SHUTDOWN: u8 = 1;

/// Shutdown flag: the write direction is closed.
pub const SEND_SHUTDOWN: u8 = 2;

/// Shutdown flags: both directions are closed.
pub const SHUTDOWN_MASK: u8 = 3;

/// No connection (also the state after a shutdown).
pub const STATE_CLOSED: u8 = 0;

/// An operation on the socket is under way.
pub const STATE_BUSY: u8 = 1;

/// A connection has been started.
pub const STATE_CONNECTING: u8 = 2;

/// The connection is established.
pub const STATE_CONNECTED: u8 = 3;

/// The socket listens on its local endpoint.
pub const STATE_LISTENING: u8 = 4;

/// Size of the transmit buffer of a TCP socket.
pub const TCP_SEND_BUFFER: usize = 65536;

/// Size of the receive buffer of a TCP socket.
pub const TCP_RECV_BUFFER: usize = 65536;

/// A TCP socket.
pub struct TcpSocket<H> {
    /// the handle of its smoltcp socket, once it has one
    handle: Option<H>,
    /// the local endpoint
    local_addr: IpEndpoint,
    /// the endpoint of the peer
    peer_addr: IpEndpoint,
    /// whether operations return at once instead of waiting
    block: bool,
    /// one of the `STATE_*` values
    state: u8,
    /// the `*_SHUTDOWN` flags of the directions shut down
    shutdown: u8,
}

/// What the caller has to do after `shutdown`.
pub enum ShutdownAction<H> {
    /// Nothing.
    Nothing,
    /// Close the connection of the smoltcp socket with this handle, then
    /// poll the interface.
    CloseConnection(H),
    /// The port is no longer listened on: release the sockets of these
    /// queued connections, then poll the interface.
    Unlistened(VecDeque<H>),
}

/// What one attempt at sending does, from the connection state and whether
/// the transmit buffer has room.
#[derive(Debug, Clone, Copy, PartialEq, Eq, Structural)]
pub enum SendStep {
    /// The connection is not active or its transmit half is closed.
    NotConnected,
    /// Enqueue the data.
    Send,
    /// Register a waker and try again later.
    Wait,
}

/// What one attempt at receiving does, from the connection state and the
/// receive buffer.
#[derive(Debug, Clone, Copy, PartialEq, Eq, Structural)]
pub enum RecvStep {
    /// The connection is not active or its receive half is closed.
    NotConnected,
    /// Dequeue data.
    Recv,
    /// Register a waker and try again later.
    Wait,
}

/// The step of a send attempt, from whether the socket is still making its
/// connection, the state of the smoltcp socket and whether it can send: a
/// connection still in its handshake is waited for.
pub open spec fn send_step_spec(connecting: bool, state: TcpState, can_send: bool) -> SendStep {
    if connecting && (state is SynSent || state is SynReceived) {
        SendStep::Wait
    } else if !state.active() || !state.sendable() {
        SendStep::NotConnected
    } else if can_send {
        SendStep::Send
    } else {
        SendStep::Wait
    }
}

/// The step of a receive attempt.
pub open spec fn recv_step_spec(state: TcpState, queued: usize, can_recv: bool) -> RecvStep {
    if !state.active() || !state.receivable(queued as int) {
        RecvStep::NotConnected
    } else if can_recv || queued > 0 {
        RecvStep::Recv
    } else {
        RecvStep::Wait
    }
}

/// Decides a send attempt.
pub fn send_step(connecting: bool, state: TcpState, can_send: bool) -> (r: SendStep)
    ensures
        r == send_step_spec(connecting, state, can_send),
{
    if connecting && (matches!(state, TcpState::SynSent) || matches!(state, TcpState::SynReceived)) {
        SendStep::Wait
    } else if !state.is_active() || !state.may_send() {
        SendStep::NotConnected
    } else if can_send {
        SendStep::Send
    } else {
        SendStep::Wait
    }
}

/// Decides a receive attempt.
pub fn recv_step(state: TcpState, queued: usize, can_recv: bool) -> (r: RecvStep)
    ensures
        r == recv_step_spec(state, queued, can_recv),
{
    if !state.is_active() || !state.may_recv(queued) {
        RecvStep::NotConnected
    } else if can_recv || queued > 0 {
        RecvStep::Recv
    } else {
        RecvStep::Wait
    }
}

/// The error that a refusal of smoltcp's `connect` becomes: `EBADF` for a
/// socket that is already open, `EADDRNOTAVAIL` for an endpoint that cannot
/// be addressed.
pub open spec fn connect_refusal_spec(e: TcpConnectError) -> SysError {
    match e {
        TcpConnectError::InvalidState => SysError::EBADF,
        TcpConnectError::Unaddressable => SysError::EADDRNOTAVAIL,
    }
}

/// The error that a refusal of smoltcp's `connect` becomes.
pub fn connect_refusal(e: TcpConnectError) -> (r: SysError)
    ensures
        r == connect_refusal_spec(e),
{
    match e {
        TcpConnectError::InvalidState => SysError::EBADF,
        TcpConnectError::Unaddressable => SysError::EADDRNOTAVAIL,
    }
}

/// The outcome of a send attempt of step `step`, where `sent` is what
/// smoltcp's `send_slice` gave (an error where it was not called):
/// `ENOTCONN` for a connection that cannot send, `EAGAIN` for one to wait
/// for, and otherwise the count that smoltcp took, or `EAGAIN` where it
/// refused.
pub open spec fn send_result_spec(step: SendStep, sent: Result<usize, ()>) -> Result<usize, SysError> {
    match step {
        SendStep::NotConnected => Err(SysError::ENOTCONN),
        SendStep::Wait => Err(SysError::EAGAIN),
        SendStep::Send => match sent {
            Ok(n) => Ok(n),
            Err(()) => Err(SysError::EAGAIN),
        },
    }
}

/// The outcome of a send attempt.
pub fn send_result(step: SendStep, sent: Result<usize, ()>) -> (r: Result<usize, SysError>)
    ensures
        r == send_result_spec(step, sent),
{
    match step {
        SendStep::NotConnected => Err(SysError::ENOTCONN),
        SendStep::Wait => Err(SysError::EAGAIN),
        SendStep::Send => match sent {
            Ok(n) => Ok(n),
            Err(()) => Err(SysError::EAGAIN),
        },
    }
}

/// The outcome of a receive attempt of step `step`, where `received` is
/// what smoltcp's `recv_slice` gave (an error where it was not called):
/// `ENOTCONN` for a connection that cannot receive, `EAGAIN` for one to
/// wait for, and otherwise the count that smoltcp copied, or `EAGAIN` where
/// it refused.
pub open spec fn recv_result_spec(step: RecvStep, received: Result<usize, ()>) -> Result<usize, SysError> {
    match step {
        RecvStep::NotConnected => Err(SysError::ENOTCONN),
        RecvStep::Wait => Err(SysError::EAGAIN),
        RecvStep::Recv => match received {
            Ok(n) => Ok(n),
            Err(()) => Err(SysError::EAGAIN),
        },
    }
}

/// The outcome of a receive attempt.
pub fn recv_result(step: RecvStep, received: Result<usize, ()>) -> (r: Result<usize, SysError>)
    ensures
        r == recv_result_spec(step, received),
{
    match step {
        RecvStep::NotConnected => Err(SysError::ENOTCONN),
        RecvStep::Wait => Err(SysError::EAGAIN),
        RecvStep::Recv => match received {
            Ok(n) => Ok(n),
            Err(()) => Err(SysError::EAGAIN),
        },
    }
}

/// What one attempt at sending `len` octets over the smoltcp socket `s`
/// gives, `connecting` telling whether the socket is still making its
/// connection: the step that `send_step` takes from the state of `s` and
/// whether it can send, then the count that `send_slice` takes (all that
/// the transmit buffer has room for, where the transmit half is open).
pub open spec fn tcp_send_outcome(connecting: bool, s: SmolTcpSocket, len: int) -> Result<usize, SysError> {
    let state = tcp_state_of(s);
    let room = tcp_tx_capacity(s) - tcp_tx(s).len();
    let can_send = state.sendable() && room > 0;
    send_result_spec(
        send_step_spec(connecting, state, can_send),
        if state.sendable() {
            Ok(vstd::math::min(len, room) as usize)
        } else {
            Err(())
        },
    )
}

/// What one attempt at receiving into a buffer of `len` octets from the
/// smoltcp socket `s` gives: the step that `recv_step` takes from the state
/// of `s` and the octets queued, then the count that `recv_slice` copies
/// (as many queued octets as fit, where the receive half is open).
pub open spec fn tcp_recv_outcome(s: SmolTcpSocket, len: int) -> Result<usize, SysError> {
    let state = tcp_state_of(s);
    let queued = tcp_rx(s).len();
    recv_result_spec(
        recv_step_spec(state, queued as usize, queued > 0),
        if state.receivable(queued as int) {
            Ok(vstd::math::min(len, queued as int) as usize)
        } else {
            Err(())
        },
    )
}

/// The flags that a `shutdown` method sets, or none for an unknown method.
pub open spec fn shutdown_flags(method: u8) -> Option<u8> {
    if method == SHUT_RD {
        Some(RCV_SHUTDOWN)
    } else if method == SHUT_WR {
        Some(SEND_SHUTDOWN)
    } else if method == SHUT_RDWR {
        Some(SHUTDOWN_MASK)
    } else {
        None
    }
}

/// What `shutdown` with `method` does: a socket `before` becomes `after`,
/// the listen table `tb` becomes `ta`, and `r` is returned. An unknown
/// method is `EINVAL` and changes nothing; otherwise the flags of the
/// method join the shutdown flags, a connected socket becomes closed and
/// its connection is to be closed, a listening socket stops listening and
/// becomes closed and unbound (its queued connections are handed back),
/// and a socket in any other state keeps its state.
pub open spec fn shut_down<H: Copy>(
    before: TcpSocket<H>,
    after: TcpSocket<H>,
    method: u8,
    tb: Seq<PortView<H>>,
    ta: Seq<PortView<H>>,
    r: Result<ShutdownAction<H>, SysError>,
) -> bool {
    let port = before.local_spec().port;
    &&& shutdown_flags(method) is None ==> r == Err::<ShutdownAction<H>, SysError>(SysError::EINVAL)
        && after == before && ta == tb
    &&& shutdown_flags(method) is Some ==> r is Ok && after.shutdown_spec() == (before.shutdown_spec()
        | shutdown_flags(method)->Some_0) && after.handle_spec() == before.handle_spec()
        && after.peer_spec() == before.peer_spec() && after.nonblocking_spec() == before.nonblocking_spec()
    &&& shutdown_flags(method) is Some && before.state_spec() == STATE_CONNECTED ==> (r matches Ok(
        ShutdownAction::CloseConnection(h),
    ) && before.handle_spec() == Some(h) && after.state_spec() == STATE_CLOSED && after.local_spec()
        == before.local_spec() && ta == tb)
    &&& shutdown_flags(method) is Some && before.state_spec() == STATE_LISTENING ==> (r matches Ok(
        ShutdownAction::Unlistened(q),
    ) && ta == after_unlisten(tb, port) && after.state_spec() == STATE_CLOSED && after.local_spec()
        == unspecified_ipv4_endpoint_spec() && (tb[port as int] matches Some(e) ==> q@ == e.1) && (
    tb[port as int] is None ==> q@ == Seq::<H>::empty()))
    &&& shutdown_flags(method) is Some && before.state_spec() != STATE_CONNECTED && before.state_spec()
        != STATE_LISTENING ==> (r matches Ok(ShutdownAction::Nothing) && after.state_spec()
        == before.state_spec() && after.local_spec() == before.local_spec() && ta == tb)
}

/// The local endpoint that binding to `requested` records, once a port 0
/// has been replaced by `port`: the unspecified IPv6 address becomes the
/// unspecified IPv4 address.
pub open spec fn bound_endpoint(requested: IpEndpoint, port: u16) -> IpEndpoint {
    IpEndpoint {
        addr: if requested.addr.unspecified() && requested.addr is Ipv6 {
            unspecified_ipv4_spec()
        } else {
            requested.addr
        },
        port,
    }
}

/// The listen endpoint of a local endpoint: its port, and its address
/// unless that is the unspecified IPv4 address.
pub open spec fn listen_point(local: IpEndpoint) -> IpListenEndpoint {
    IpListenEndpoint {
        addr: if local.addr == unspecified_ipv4_spec() {
            None
        } else {
            Some(local.addr)
        },
        port: local.port,
    }
}

/// `after` is `before` with its local endpoint replaced by `local`.
pub open spec fn local_replaced<H: Copy>(before: TcpSocket<H>, after: TcpSocket<H>, local: IpEndpoint) -> bool {
    &&& after.local_spec() == local
    &&& after.state_spec() == before.state_spec()
    &&& after.handle_spec() == before.handle_spec()
    &&& after.peer_spec() == before.peer_spec()
    &&& after.nonblocking_spec() == before.nonblocking_spec()
    &&& after.shutdown_spec() == before.shutdown_spec()
}

/// `after` is `before` in the state `state`.
pub open spec fn state_replaced<H: Copy>(before: TcpSocket<H>, after: TcpSocket<H>, state: u8) -> bool {
    &&& after.state_spec() == state
    &&& after.local_spec() == before.local_spec()
    &&& after.handle_spec() == before.handle_spec()
    &&& after.peer_spec() == before.peer_spec()
    &&& after.nonblocking_spec() == before.nonblocking_spec()
    &&& after.shutdown_spec() == before.shutdown_spec()
}

impl<H: Copy> TcpSocket<H> {
    /// The handle of the smoltcp socket, if any.
    pub closed spec fn handle_spec(&self) -> Option<H> {
        self.handle
    }

    /// The local endpoint.
    pub closed spec fn local_spec(&self) -> IpEndpoint {
        self.local_addr
    }

    /// The peer endpoint.
    pub closed spec fn peer_spec(&self) -> IpEndpoint {
        self.peer_addr
    }

    /// Whether the socket is nonblocking.
    pub closed spec fn nonblocking_spec(&self) -> bool {
        self.block
    }

    /// The state, one of the `STATE_*` values.
    pub closed spec fn state_spec(&self) -> u8 {
        self.state
    }

    /// The shutdown flags.
    pub closed spec fn shutdown_spec(&self) -> u8 {
        self.shutdown
    }

    /// The same socket in another state.
    closed spec fn with_state(self, state: u8) -> Self {
        TcpSocket { state, ..self }
    }

    /// The same socket with another local endpoint.
    closed spec fn with_local(self, local: IpEndpoint) -> Self {
        TcpSocket { local_addr: local, ..self }
    }

    /// The socket is in one of the `STATE_*` states, and has a smoltcp
    /// socket while it connects or is connected.
    pub open spec fn wf(&self) -> bool {
        &&& self.state_spec() <= STATE_LISTENING
        &&& (self.state_spec() == STATE_CONNECTING || self.state_spec() == STATE_CONNECTED)
            ==> self.handle_spec() is Some
    }

    /// What `local_addr` returns: the local endpoint while connected,
    /// listening or closed; `ENOTCONN` otherwise.
    pub open spec fn local_addr_result(&self) -> Result<IpEndpoint, SysError> {
        if self.state_spec() == STATE_CONNECTED || self.state_spec() == STATE_LISTENING
            || self.state_spec() == STATE_CLOSED {
            Ok(self.local_spec())
        } else {
            Err(SysError::ENOTCONN)
        }
    }

    /// What `peer_addr` returns: the peer endpoint while connected or
    /// listening; `ENOTCONN` otherwise.
    pub open spec fn peer_addr_result(&self) -> Result<IpEndpoint, SysError> {
        if self.state_spec() == STATE_CONNECTED || self.state_spec() == STATE_LISTENING {
            Ok(self.peer_spec())
        } else {
            Err(SysError::ENOTCONN)
        }
    }

    /// A closed, blocking socket without a smoltcp socket, bound to nothing:
    /// its local endpoint is the unspecified IPv4 endpoint, its peer the
    /// unspecified IPv6 endpoint.
    pub fn new() -> (r: Self)
        ensures
            r.handle_spec() is None,
            r.local_spec() == (IpEndpoint { addr: unspecified_ipv4_spec(), port: 0 }),
            r.peer_spec() == (IpEndpoint { addr: unspecified_ipv6_spec(), port: 0 }),
            !r.nonblocking_spec(),
            r.state_spec() == STATE_CLOSED,
            r.shutdown_spec() == 0,
            r.wf(),
    {
        TcpSocket {
            handle: None,
            local_addr: unspecified_ipv4_endpoint(),
            peer_addr: unspecified_ipv6_endpoint(),
            block: false,
            state: STATE_CLOSED,
            shutdown: 0,
        }
    }

    /// A closed, blocking socket over the smoltcp socket `handle`, with the
    /// given endpoints.
    pub fn new_socket_with_addr(handle: H, peer_addr: IpEndpoint, local_addr: IpEndpoint) -> (r: Self)
        ensures
            r.handle_spec() == Some(handle),
            r.local_spec() == local_addr,
            r.peer_spec() == peer_addr,
            !r.nonblocking_spec(),
            r.state_spec() == STATE_CLOSED,
            r.shutdown_spec() == 0,
            r.wf(),
    {
        TcpSocket {
            handle: Some(handle),
            local_addr,
            peer_addr,
            state: STATE_CLOSED,
            block: false,
            shutdown: 0,
        }
    }

    /// A connected, blocking socket over the smoltcp socket `handle`.
    pub fn new_connected(handle: H, local_addr: IpEndpoint, remote_addr: IpEndpoint) -> (r: Self)
        ensures
            r.handle_spec() == Some(handle),
            r.local_spec() == local_addr,
            r.peer_spec() == remote_addr,
            !r.nonblocking_spec(),
            r.state_spec() == STATE_CONNECTED,
            r.shutdown_spec() == 0,
            r.wf(),
    {
        TcpSocket {
            handle: Some(handle),
            local_addr,
            peer_addr: remote_addr,
            block: false,
            state: STATE_CONNECTED,
            shutdown: 0,
        }
    }

    /// The handle of the smoltcp socket, if any.
    pub fn handle(&self) -> (r: Option<H>)
        ensures
            r == self.handle_spec(),
    {
        self.handle
    }

    /// The local endpoint while connected, listening or closed.
    pub fn local_addr(&self) -> (r: Result<IpEndpoint, SysError>)
        ensures
            r == self.local_addr_result(),
    {
        match self.get_state() {
            STATE_CONNECTED | STATE_LISTENING | STATE_CLOSED => Ok(self.local_addr),
            _ => Err(SysError::ENOTCONN),
        }
    }

    /// The peer endpoint while connected or listening.
    pub fn peer_addr(&self) -> (r: Result<IpEndpoint, SysError>)
        ensures
            r == self.peer_addr_result(),
    {
        match self.get_state() {
            STATE_CONNECTED | STATE_LISTENING => Ok(self.peer_addr),
            _ => Err(SysError::ENOTCONN),
        }
    }

    /// Whether operations return at once instead of waiting.
    pub fn is_nonblocking(&self) -> (r: bool)
        ensures
            r == self.nonblocking_spec(),
    {
        self.block
    }

    /// Makes operations return at once (`true`) or wait (`false`).
    pub fn set_nonblocking(&mut self, block: bool)
        ensures
            final(self).nonblocking_spec() == block,
            final(self).state_spec() == old(self).state_spec(),
            final(self).local_spec() == old(self).local_spec(),
            final(self).peer_spec() == old(self).peer_spec(),
            final(self).handle_spec() == old(self).handle_spec(),
            final(self).shutdown_spec() == old(self).shutdown_spec(),
            old(self).wf() ==> final(self).wf(),
    {
        self.block = block;
    }

    /// The state.
    pub fn get_state(&self) -> (r: u8)
        ensures
            r == self.state_spec(),
    {
        self.state
    }

    /// Sets the state.
    fn set_state(&mut self, state: u8)
        ensures
            *final(self) == old(self).with_state(state),
    {
        self.state = state;
    }

    /// Whether a connection has been started.
    pub fn is_connecting(&self) -> (r: bool)
        ensures
            r == (self.state_spec() == STATE_CONNECTING),
    {
        self.state == STATE_CONNECTING
    }

    /// Whether the connection is established.
    pub fn is_connected(&self) -> (r: bool)
        ensures
            r == (self.state_spec() == STATE_CONNECTED),
    {
        self.state == STATE_CONNECTED
    }

    /// Whether the socket listens.
    pub fn is_listening(&self) -> (r: bool)
        ensures
            r == (self.state_spec() == STATE_LISTENING),
    {
        self.state == STATE_LISTENING
    }

    /// Whether an operation is under way.
    pub fn is_busy(&self) -> (r: bool)
        ensures
            r == (self.state_spec() == STATE_BUSY),
    {
        self.state == STATE_BUSY
    }

    /// Whether the socket is closed.
    pub fn is_closed(&self) -> (r: bool)
        ensures
            r == (self.state_spec() == STATE_CLOSED),
    {
        self.state == STATE_CLOSED
    }

    /// The first half of a state update: where the state is `expect`, it
    /// becomes `STATE_BUSY` and the result is `Ok`; otherwise nothing
    /// changes and the result is the current state.
    fn update_state_begin(&mut self, expect: u8) -> (r: Result<(), u8>)
        ensures
            old(self).state_spec() == expect ==> r is Ok && *final(self) == old(self).with_state(
                STATE_BUSY,
            ),
            old(self).state_spec() != expect ==> r == Err::<(), u8>(old(self).state_spec())
                && *final(self) == *old(self),
    {
        if self.state == expect {
            self.set_state(STATE_BUSY);
            Ok(())
        } else {
            Err(self.state)
        }
    }

    /// The second half of a state update: the state becomes `new` where
    /// the operation succeeded and `expect` again where it failed.
    fn update_state_end(&mut self, expect: u8, new: u8, succeeded: bool)
        ensures
            *final(self) == old(self).with_state(if succeeded { new } else { expect }),
    {
        if succeeded {
            self.set_state(new);
        } else {
            self.set_state(expect);
        }
    }

    /// The listen endpoint of the local endpoint: its port, and its address
    /// unless that is the unspecified IPv4 address.
    pub fn bound_point(&self) -> (r: Result<IpListenEndpoint, SysError>)
        requires
            self.local_spec().port != 0,
        ensures
            r == Ok::<IpListenEndpoint, SysError>(listen_point(self.local_spec())),
    {
        let local_point = self.local_addr;
        let port = local_point.port;
        let addr = if !local_point.addr.equals(&unspecified_ipv4()) {
            Some(local_point.addr)
        } else {
            None
        };
        Ok(IpListenEndpoint { addr, port })
    }

    /// Binds the socket to `local_addr`, where it is closed (`EINVAL`
    /// otherwise). A port 0 is replaced by the ephemeral port that the scan
    /// from `*curr` picks; the socket must not be bound yet (`EADDRINUSE`
    /// otherwise, with the state as before); an unspecified IPv6 address is
    /// recorded as the unspecified IPv4 address.
    pub fn bind(&mut self, local_addr: IpEndpoint, table: &ListenTable<H>, curr: &mut u16) -> (r: Result<(), SysError>)
        requires
            table.wf(),
            PORT_START <= *old(curr),
            old(self).state_spec() == STATE_CLOSED && local_addr.port == 0 ==> exists|p: u16|
                PORT_START <= p && #[trigger] table@[p as int] is None,
        ensures
            old(self).wf() ==> final(self).wf(),
            old(self).state_spec() != STATE_CLOSED ==> r == Err::<(), SysError>(SysError::EINVAL)
                && *final(self) == *old(self) && *final(curr) == *old(curr),
            old(self).state_spec() == STATE_CLOSED && local_addr.port == 0 ==> ephemeral_pick(
                table@,
                *old(curr),
                *final(curr),
            ),
            local_addr.port != 0 ==> *final(curr) == *old(curr),
            old(self).state_spec() == STATE_CLOSED && old(self).local_spec() != unspecified_ipv4_endpoint_spec()
                ==> r == Err::<(), SysError>(SysError::EADDRINUSE) && *final(self) == *old(self),
            old(self).state_spec() == STATE_CLOSED && old(self).local_spec() == unspecified_ipv4_endpoint_spec()
                ==> r is Ok && local_replaced(
                *old(self),
                *final(self),
                bound_endpoint(local_addr, if local_addr.port == 0 { *final(curr) } else { local_addr.port }),
            ),
    {
        if self.update_state_begin(STATE_CLOSED).is_err() {
            return Err(SysError::EINVAL);
        }
        let mut local_addr = local_addr;
        if local_addr.port == 0 {
            let port = table.get_ephemeral_port(curr).unwrap();
            local_addr.port = port;
        }
        let old_addr = self.local_addr;
        if !old_addr.equals(&unspecified_ipv4_endpoint()) {
            self.update_state_end(STATE_CLOSED, STATE_CLOSED, false);
            return Err(SysError::EADDRINUSE);
        }
        if let IpAddress::Ipv6(_) = local_addr.addr {
            if local_addr.addr.is_unspecified() {
                local_addr.addr = unspecified_ipv4();
            }
        }
        self.local_addr = local_addr;
        self.update_state_end(STATE_CLOSED, STATE_CLOSED, true);
        Ok(())
    }

    /// Starts listening on the local endpoint, where the socket is closed;
    /// a socket in any other state is left as it is, and `Ok`. The port
    /// must not be listened on yet (`EADDRINUSE` otherwise, with the socket
    /// as before).
    pub fn listen(&mut self, table: &mut ListenTable<H>) -> (r: Result<(), SysError>)
        requires
            old(table).wf(),
            old(self).state_spec() == STATE_CLOSED ==> old(self).local_spec().port != 0,
        ensures
            final(table).wf(),
            old(self).wf() ==> final(self).wf(),
            old(self).state_spec() != STATE_CLOSED ==> r is Ok && *final(self) == *old(self)
                && final(table)@ == old(table)@,
            old(self).state_spec() == STATE_CLOSED && old(table)@[old(self).local_spec().port as int] is None
                ==> r is Ok && final(table)@ == after_listen(old(table)@, listen_point(old(self).local_spec()))
                && state_replaced(*old(self), *final(self), STATE_LISTENING),
            old(self).state_spec() == STATE_CLOSED && old(table)@[old(self).local_spec().port as int] is Some
                ==> r == Err::<(), SysError>(SysError::EADDRINUSE) && final(table)@ == old(table)@
                && *final(self) == *old(self),
    {
        if self.update_state_begin(STATE_CLOSED).is_err() {
            return Ok(());
        }
        let bind_endpoint = match self.bound_point() {
            Ok(e) => e,
            Err(e) => {
                self.update_state_end(STATE_CLOSED, STATE_LISTENING, false);
                return Err(e);
            },
        };
        match table.listen(bind_endpoint) {
            Ok(()) => {
                self.update_state_end(STATE_CLOSED, STATE_LISTENING, true);
                Ok(())
            },
            Err(e) => {
                self.update_state_end(STATE_CLOSED, STATE_LISTENING, false);
                Err(e)
            },
        }
    }

    /// One attempt at accepting a connection on the listened port: `EINVAL`
    /// where the socket does not listen; otherwise what the listen table
    /// hands out, as a new connected socket (`EAGAIN` where nothing is
    /// established yet).
    pub fn accept<F: Fn(H) -> bool, G: Fn(H) -> (IpEndpoint, IpEndpoint)>(
        &self,
        table: &mut ListenTable<H>,
        is_connected: &F,
        get_addrs: &G,
    ) -> (r: Result<TcpSocket<H>, SysError>)
        requires
            old(table).wf(),
            forall|h: H| is_connected.requires((h,)),
            forall|h: H| get_addrs.requires((h,)),
        ensures
            final(table).wf(),
            self.state_spec() != STATE_LISTENING ==> r == Err::<TcpSocket<H>, SysError>(
                SysError::EINVAL,
            ) && final(table)@ == old(table)@,
            r is Err && self.state_spec() == STATE_LISTENING ==> r == Err::<TcpSocket<H>, SysError>(
                SysError::EAGAIN,
            ) && final(table)@ == old(table)@,
            r is Err && self.state_spec() == STATE_LISTENING && old(table)@[self.local_spec().port as int] is Some
                ==> none_reported_connected(old(table)@[self.local_spec().port as int]->Some_0.1, *is_connected),
            r matches Ok(s) ==> s.wf() && self.state_spec() == STATE_LISTENING && s.state_spec()
                == STATE_CONNECTED && s.handle_spec() is Some && !s.nonblocking_spec()
                && s.shutdown_spec() == 0 && old(table)@[self.local_spec().port as int] is Some
                && accepted(
                old(table)@,
                final(table)@,
                self.local_spec().port,
                s.handle_spec()->Some_0,
                (s.local_spec(), s.peer_spec()),
                *is_connected,
                *get_addrs,
            ),
    {
        if !self.is_listening() {
            return Err(SysError::EINVAL);
        }
        let port = self.local_addr.port;
        match table.accept(port, is_connected, get_addrs) {
            Ok((handle, (local_addr, peer_addr))) => Ok(TcpSocket::new_connected(handle, local_addr, peer_addr)),
            Err(e) => Err(e),
        }
    }

    /// Shuts down the directions that `method` names (`EINVAL` for an
    /// unknown method, with nothing changed). A connected socket becomes
    /// closed and its connection is to be closed; a listening socket stops
    /// listening, becomes closed and unbound.
    pub fn shutdown(&mut self, method: u8, table: &mut ListenTable<H>) -> (r: Result<ShutdownAction<H>, SysError>)
        requires
            old(table).wf(),
            old(self).state_spec() == STATE_CONNECTED ==> old(self).handle_spec() is Some,
        ensures
            final(table).wf(),
            old(self).wf() ==> final(self).wf(),
            shut_down(*old(self), *final(self), method, old(table)@, final(table)@, r),
    {
        let flags = match method {
            SHUT_RD => RCV_SHUTDOWN,
            SHUT_WR => SEND_SHUTDOWN,
            SHUT_RDWR => SHUTDOWN_MASK,
            _ => return Err(SysError::EINVAL),
        };
        self.shutdown = self.shutdown | flags;
        if self.update_state_begin(STATE_CONNECTED).is_ok() {
            let handle = self.handle.unwrap();
            self.update_state_end(STATE_CONNECTED, STATE_CLOSED, true);
            return Ok(ShutdownAction::CloseConnection(handle));
        }
        if self.update_state_begin(STATE_LISTENING).is_ok() {
            let port = self.local_addr.port;
            let queued = table.unlisten(port);
            self.local_addr = unspecified_ipv4_endpoint();
            self.update_state_end(STATE_LISTENING, STATE_CLOSED, true);
            return Ok(ShutdownAction::Unlistened(queued));
        }
        Ok(ShutdownAction::Nothing)
    }

    /// Starts a connection to `peer_addr` from the local endpoint, where the
    /// socket is closed (`EEXIST` otherwise, with nothing changed), over the
    /// smoltcp socket `socket`, whose handle is `handle`. smoltcp refusing
    /// is `EBADF` (socket already open) or `EADDRNOTAVAIL` (unaddressable
    /// endpoint), with the socket as before. On success the socket records
    /// the endpoints that smoltcp chose and the handle, and is connecting.
    pub fn connect(
        &mut self,
        peer_addr: IpEndpoint,
        handle: H,
        socket: &mut smoltcp::socket::tcp::Socket<'_>,
        cx: &mut smoltcp::iface::Context,
    ) -> (r: Result<(), SysError>)
        requires
            old(self).state_spec() == STATE_CLOSED ==> old(self).local_spec().port != 0,
        ensures
            old(self).wf() ==> final(self).wf(),
            old(self).state_spec() != STATE_CLOSED ==> r == Err::<(), SysError>(SysError::EEXIST)
                && *final(self) == *old(self),
            old(self).state_spec() == STATE_CLOSED && r is Err ==> (r == Err::<(), SysError>(
                SysError::EBADF,
            ) || r == Err::<(), SysError>(SysError::EADDRNOTAVAIL)) && *final(self) == *old(self),
            old(self).state_spec() == STATE_CLOSED && (peer_addr.port == 0
                || peer_addr.addr.unspecified()) ==> r is Err,
            r is Ok ==> old(self).state_spec() == STATE_CLOSED && final(self).state_spec()
                == STATE_CONNECTING && final(self).handle_spec() == Some(handle)
                && final(self).nonblocking_spec() == old(self).nonblocking_spec()
                && final(self).shutdown_spec() == old(self).shutdown_spec(),
            r is Ok ==> (final(self).peer_spec() == peer_addr && final(self).local_spec().port == old(
                self,
            ).local_spec().port && (listen_point(old(self).local_spec()).addr matches Some(a)
                ==> final(self).local_spec().addr == a) && (final(self).local_spec().addr is Ipv4
                <==> peer_addr.addr is Ipv4)),
            old(self).state_spec() == STATE_CLOSED && r is Err ==> exists|e: TcpConnectError|
                r == Err::<(), SysError>(#[trigger] connect_refusal_spec(e)),
            old(self).state_spec() == STATE_CLOSED && tcp_state_of(*old(socket)).open() ==> r == Err::<
                (),
                SysError,
            >(SysError::EBADF),
            old(self).state_spec() == STATE_CLOSED && !tcp_state_of(*old(socket)).open() && (peer_addr.port
                == 0 || peer_addr.addr.unspecified() || (listen_point(old(self).local_spec()).addr matches Some(
                a,
            ) && (a.unspecified() || (a is Ipv4) != (peer_addr.addr is Ipv4)))) ==> r == Err::<(), SysError>(
                SysError::EADDRNOTAVAIL,
            ),
            old(self).state_spec() == STATE_CLOSED && !tcp_state_of(*old(socket)).open() && peer_addr.port
                != 0 && !peer_addr.addr.unspecified() && (listen_point(old(self).local_spec()).addr matches Some(
                a,
            ) && !a.unspecified() && (a is Ipv4) == (peer_addr.addr is Ipv4)) ==> r is Ok,
            r is Ok ==> tcp_state_of(*final(socket)) == TcpState::SynSent && tcp_ends_of(*final(socket))
                == Some((final(self).local_spec(), final(self).peer_spec())),
    {
        if self.update_state_begin(STATE_CLOSED).is_err() {
            return Err(SysError::EEXIST);
        }
        let bound_point = match self.bound_point() {
            Ok(b) => b,
            Err(e) => {
                self.update_state_end(STATE_CLOSED, STATE_CONNECTING, false);
                return Err(e);
            },
        };
        match tcp_connect(socket, cx, peer_addr, bound_point) {
            Ok((local_endpoint, remote_endpoint)) => {
                self.local_addr = local_endpoint;
                self.peer_addr = remote_endpoint;
                self.handle = Some(handle);
                self.update_state_end(STATE_CLOSED, STATE_CONNECTING, true);
                Ok(())
            },
            Err(e) => {
                self.update_state_end(STATE_CLOSED, STATE_CONNECTING, false);
                Err(connect_refusal(e))
            },
        }
    }

    /// One attempt at sending `buf` over the smoltcp socket of the
    /// connection: `ENOTCONN` where the connection is not active or its
    /// transmit half is closed; otherwise as much of `buf` as the transmit
    /// buffer takes, or, where it is full or the connection that this socket
    /// started is still in its handshake, `waker` is registered and
    /// `EAGAIN` (which a blocking caller waits on: see `block_on_step`).
    pub fn send(&self, socket: &mut smoltcp::socket::tcp::Socket<'_>, buf: &[u8], waker: &core::task::Waker) -> (r: Result<usize, SysError>)
        ensures
            r == tcp_send_outcome(self.state_spec() == STATE_CONNECTING, *old(socket), buf@.len() as int),
            r is Err ==> tcp_tx(*final(socket)) == tcp_tx(*old(socket)),
            r matches Ok(n) ==> (tcp_tx(*final(socket)) == tcp_tx(*old(socket)) + buf@.take(n as int) && (
            buf@.len() > 0 ==> n > 0)),
            tcp_rx(*final(socket)) == tcp_rx(*old(socket)),
            tcp_tx_capacity(*final(socket)) == tcp_tx_capacity(*old(socket)),
            tcp_state_of(*final(socket)) == tcp_state_of(*old(socket)),
    {
        let state = tcp_state(socket);
        let can_send = tcp_can_send(socket);
        let step = send_step(self.is_connecting(), state, can_send);
        let sent = match step {
            SendStep::Send => tcp_send_slice(socket, buf),
            SendStep::Wait => {
                tcp_register_send_waker(socket, waker);
                Err(())
            },
            SendStep::NotConnected => Err(()),
        };
        send_result(step, sent)
    }

    /// One attempt at receiving into `buf` from the smoltcp socket of the
    /// connection: `ENOTCONN` where the connection is not active or its
    /// receive half is closed; otherwise as many queued octets as fit, taken
    /// from the front of the socket's receive buffer, or, where nothing is
    /// queued, `waker` is registered and `EAGAIN`.
    pub fn recv(&self, socket: &mut smoltcp::socket::tcp::Socket<'_>, buf: &mut [u8], waker: &core::task::Waker) -> (r: Result<usize, SysError>)
        ensures
            r == tcp_recv_outcome(*old(socket), old(buf)@.len() as int),
            final(buf)@.len() == old(buf)@.len(),
            r is Err ==> final(buf)@ == old(buf)@ && tcp_rx(*final(socket)) == tcp_rx(*old(socket)),
            r matches Ok(n) ==> (final(buf)@ == tcp_rx(*old(socket)).take(n as int) + old(buf)@.skip(n as int)
                && tcp_rx(*final(socket)) == tcp_rx(*old(socket)).skip(n as int) && (old(buf)@.len() > 0
                ==> n > 0)),
            tcp_tx(*final(socket)) == tcp_tx(*old(socket)),
            tcp_tx_capacity(*final(socket)) == tcp_tx_capacity(*old(socket)),
            tcp_state_of(*final(socket)) == tcp_state_of(*old(socket)),
    {
        let state = tcp_state(socket);
        let queued = tcp_recv_queue(socket);
        let can_recv = tcp_can_recv(socket);
        let step = recv_step(state, queued, can_recv);
        let received = match step {
            RecvStep::Recv => tcp_recv_slice(socket, buf),
            RecvStep::Wait => {
                tcp_register_recv_waker(socket, waker);
                Err(())
            },
            RecvStep::NotConnected => Err(()),
        };
        recv_result(step, received)
    }
}

/// What one wait-and-retry step of a blocking operation does with the
/// outcome of an attempt.
pub enum BlockOnStep<T> {
    /// The operation is over, with this outcome.
    Return(Result<T, SysError>),
    /// Suspend, then try again.
    Suspend,
}

/// The step after an attempt of a TCP operation: a nonblocking socket
/// returns the outcome at once; a blocking one suspends on `EAGAIN` and
/// returns any other outcome.
pub fn block_on_step<T>(nonblocking: bool, ret: Result<T, SysError>) -> (r: BlockOnStep<T>)
    ensures
        nonblocking ==> r == BlockOnStep::Return(ret),
        !nonblocking && ret == Err::<T, SysError>(SysError::EAGAIN) ==> r is Suspend,
        !nonblocking && ret != Err::<T, SysError>(SysError::EAGAIN) ==> r == BlockOnStep::Return(ret),
{
    if nonblocking {
        BlockOnStep::Return(ret)
    } else {
        match ret {
            Ok(t) => BlockOnStep::Return(Ok(t)),
            Err(SysError::EAGAIN) => BlockOnStep::Suspend,
            Err(e) => BlockOnStep::Return(Err(e)),
        }
    }
}

/// One send attempt over a connection whose transmit half is open
/// (`ESTABLISHED` or `CLOSE-WAIT`) never reports the connection as gone: it
/// sends where the transmit buffer has room and waits otherwise, whether or
/// not the socket is still marked as connecting. `ENOTCONN` comes only from a
/// connection whose transmit half is not open; a connection that the socket
/// started and that is still in its handshake is waited for.
pub proof fn lemma_send_step_open_connection(connecting: bool, state: TcpState, can_send: bool)
    ensures
        (state is Established || state is CloseWait) ==> send_step_spec(connecting, state, can_send) == (
        if can_send {
            SendStep::Send
        } else {
            SendStep::Wait
        }),
        send_step_spec(connecting, state, can_send) is NotConnected ==> !(state is Established
            || state is CloseWait),
        connecting && (state is SynSent || state is SynReceived) ==> send_step_spec(
            connecting,
            state,
            can_send,
        ) is Wait,
{
}

/// What one send attempt over a connection whose transmit half is open
/// gives: as many octets as the transmit buffer has room for, at least one
/// where `len` is not 0, and `EAGAIN` where the buffer is full; never
/// `ENOTCONN`.
pub proof fn lemma_send_outcome_open_connection(connecting: bool, s: SmolTcpSocket, len: nat)
    requires
        tcp_state_of(s) is Established || tcp_state_of(s) is CloseWait,
        tcp_tx(s).len() <= tcp_tx_capacity(s),
        len <= usize::MAX,
    ensures
        tcp_tx(s).len() == tcp_tx_capacity(s) ==> tcp_send_outcome(connecting, s, len as int) == Err::<
            usize,
            SysError,
        >(SysError::EAGAIN),
        tcp_tx(s).len() < tcp_tx_capacity(s) ==> (tcp_send_outcome(connecting, s, len as int) matches Ok(n)
            && n <= len && n + tcp_tx(s).len() <= tcp_tx_capacity(s) && (len > 0 ==> n > 0) && (n == len
            || n + tcp_tx(s).len() == tcp_tx_capacity(s))),
        tcp_send_outcome(connecting, s, len as int) != Err::<usize, SysError>(SysError::ENOTCONN),
{
}

/// The listen endpoint of a local endpoint keeps its port, and keeps its
/// address unless that is `0.0.0.0`, which listens on no address.
pub proof fn lemma_listen_point(local: IpEndpoint)
    ensures
        listen_point(local).port == local.port,
        listen_point(local).addr is None <==> local.addr == IpAddress::Ipv4([0u8, 0u8, 0u8, 0u8]),
        listen_point(local).addr matches Some(a) ==> a == local.addr,
{
}

/// A socket bound to an address other than `0.0.0.0` that starts listening
/// on a free port gets the connection requests for its local endpoint
/// queued.
pub proof fn lemma_listen_then_request_queued<H>(v: Seq<PortView<H>>, local: IpEndpoint)
    requires
        v.len() == PORT_NUM,
        v[local.port as int] is None,
        local.addr != IpAddress::Ipv4([0u8, 0u8, 0u8, 0u8]),
    ensures
        queues_request(after_listen(v, listen_point(local)), local),
{
    let w = after_listen(v, listen_point(local));
    assert(w[local.port as int] == Some((listen_point(local), Seq::<H>::empty())));
    assert(listen_point(local).addr == Some(local.addr));
}

/// Binding records the requested address with the port picked: the
/// address is kept, except that the unspecified IPv6 address (`::`) is
/// recorded as `0.0.0.0`.
pub proof fn lemma_bound_endpoint(requested: IpEndpoint, port: u16)
    ensures
        bound_endpoint(requested, port).port == port,
        requested.addr is Ipv4 ==> bound_endpoint(requested, port).addr == requested.addr,
        requested.addr matches IpAddress::Ipv6(a) && (exists|i: int| 0 <= i < 16 && a@[i] != 0u8)
            ==> bound_endpoint(requested, port).addr == requested.addr,
        requested.addr == IpAddress::Ipv6([0u8, 0u8, 0u8, 0u8, 0u8, 0u8, 0u8, 0u8, 0u8, 0u8, 0u8, 0u8, 0u8, 0u8, 0u8, 0u8])
            ==> bound_endpoint(requested, port).addr == IpAddress::Ipv4([0u8, 0u8, 0u8, 0u8]),
{
}

/// Binding a closed socket records the bound endpoint, and `local_addr`
/// then returns it.
pub proof fn lemma_bind_then_local_addr<H: Copy>(
    s: TcpSocket<H>,
    bound: TcpSocket<H>,
    requested: IpEndpoint,
    port: u16,
)
    requires
        s.state_spec() == STATE_CLOSED,
        local_replaced(s, bound, bound_endpoint(requested, port)),
    ensures
        bound.local_addr_result() == Ok::<IpEndpoint, SysError>(bound_endpoint(requested, port)),
{
}

/// A socket that listens on its local endpoint and is then shut down
/// leaves the listen table as it was.
pub proof fn lemma_listen_then_shutdown<H>(v: Seq<PortView<H>>, local: IpEndpoint)
    requires
        v.len() == PORT_NUM,
        v[local.port as int] is None,
    ensures
        after_unlisten(after_listen(v, listen_point(local)), local.port) == v,
{
    crate::listen_table::lemma_listen_then_unlisten(v, listen_point(local));
}

/// The unspecified IPv4 endpoint.
pub open spec fn unspecified_ipv4_endpoint_spec() -> IpEndpoint {
    IpEndpoint { addr: unspecified_ipv4_spec(), port: 0 }
}

/// Closes the transmit half of a connection (the action of
/// `ShutdownAction::CloseConnection`).
pub fn close_connection(socket: &mut smoltcp::socket::tcp::Socket<'_>)
    ensures
        tcp_state_of(*final(socket)) == after_close(tcp_state_of(*old(socket))),
        tcp_rx(*final(socket)) == tcp_rx(*old(socket)),
        tcp_tx(*final(socket)) == tcp_tx(*old(socket)),
{
    tcp_close(socket);
}

} // verus!

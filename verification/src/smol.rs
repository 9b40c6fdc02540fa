//! The calls into smoltcp that the socket layer makes, and the TCP states
//! that smoltcp sockets go through.
use vstd::prelude::*;
use crate::endpoint::{IpAddress, IpEndpoint, IpListenEndpoint};
use smoltcp::socket::tcp::Socket as SmolTcpSocket;
use smoltcp::socket::tcp::State as SmolTcpState;
use smoltcp::socket::tcp::ConnectError;
use smoltcp::socket::udp::Socket as SmolUdpSocket;
use smoltcp::wire::{
    IpAddress as SmolAddress, IpEndpoint as SmolEndpoint, IpListenEndpoint as SmolListenEndpoint,
    Ipv4Address, Ipv6Address,
};

verus! {

#[verifier::external_type_specification]
#[verifier::external_body]
pub struct ExTcpSocket<'a>(SmolTcpSocket<'a>);

#[verifier::external_type_specification]
#[verifier::external_body]
pub struct ExUdpSocket<'a>(SmolUdpSocket<'a>);

#[verifier::external_type_specification]
#[verifier::external_body]
pub struct ExWaker(core::task::Waker);

#[verifier::external_type_specification]
#[verifier::external_body]
pub struct ExContext(smoltcp::iface::Context);

/// The states of a TCP connection (RFC 793), as smoltcp names them.
#[derive(Debug, Clone, Copy, PartialEq, Eq, Structural)]
pub enum TcpState {
    Closed,
    Listen,
    SynSent,
    SynReceived,
    Established,
    FinWait1,
    FinWait2,
    CloseWait,
    Closing,
    LastAck,
    TimeWait,
}

impl TcpState {
    /// The socket processes packets: not `CLOSED` nor `TIME-WAIT`.
    pub open spec fn open(self) -> bool {
        !(self is Closed || self is TimeWait)
    }

    /// The socket exchanges packets with a remote endpoint: not `CLOSED`,
    /// `TIME-WAIT` nor `LISTEN`.
    pub open spec fn active(self) -> bool {
        !(self is Closed || self is TimeWait || self is Listen)
    }

    /// The transmit half is open: `ESTABLISHED` or `CLOSE-WAIT`.
    pub open spec fn sendable(self) -> bool {
        self is Established || self is CloseWait
    }

    /// The receive half is open: `ESTABLISHED`, `FIN-WAIT-1` or
    /// `FIN-WAIT-2`, or received data waits in the buffer.
    pub open spec fn receivable(self, queued: int) -> bool {
        self is Established || self is FinWait1 || self is FinWait2 || queued > 0
    }

    /// A connection queued on a listening port counts as established once
    /// it has left `LISTEN` and `SYN-RECEIVED`.
    pub open spec fn connected(self) -> bool {
        !(self is Listen || self is SynReceived)
    }

    /// `tcp::Socket::is_active`, from the state.
    pub fn is_active(&self) -> (r: bool)
        ensures
            r == self.active(),
    {
        !matches!(self, TcpState::Closed | TcpState::TimeWait | TcpState::Listen)
    }

    /// `tcp::Socket::may_send`, from the state.
    pub fn may_send(&self) -> (r: bool)
        ensures
            r == self.sendable(),
    {
        matches!(self, TcpState::Established | TcpState::CloseWait)
    }

    /// `tcp::Socket::may_recv`, from the state and the number of octets
    /// waiting in the receive buffer.
    pub fn may_recv(&self, queued: usize) -> (r: bool)
        ensures
            r == self.receivable(queued as int),
    {
        matches!(self, TcpState::Established | TcpState::FinWait1 | TcpState::FinWait2) || queued > 0
    }

    /// Whether a queued connection counts as established.
    pub fn is_connected(&self) -> (r: bool)
        ensures
            r == self.connected(),
    {
        !matches!(self, TcpState::Listen | TcpState::SynReceived)
    }
}

/// A queued connection counts as established exactly when it has left the
/// listening and handshake states: every state in which data can flow
/// (either half open, as in `ESTABLISHED`, `CLOSE-WAIT` or `FIN-WAIT-1/2`)
/// counts, and only `LISTEN` and `SYN-RECEIVED` do not.
pub proof fn lemma_connected_states(s: TcpState)
    ensures
        s.sendable() ==> s.connected(),
        (s is Established || s is CloseWait || s is FinWait1 || s is FinWait2) ==> s.connected(),
        (s is Listen || s is SynReceived) ==> !s.connected(),
        !s.connected() ==> (s is Listen || s is SynReceived),
{
}

/// Why `tcp::Socket::connect` refused.
#[derive(Debug, Clone, Copy, PartialEq, Eq, Structural)]
pub enum TcpConnectError {
    InvalidState,
    Unaddressable,
}

/// Why `udp::Socket::bind` refused.
#[derive(Debug, Clone, Copy, PartialEq, Eq, Structural)]
pub enum UdpBindError {
    InvalidState,
    Unaddressable,
}

/// Why `udp::Socket::send_slice` refused.
#[derive(Debug, Clone, Copy, PartialEq, Eq, Structural)]
pub enum UdpSendError {
    Unaddressable,
    BufferFull,
}

/// The state of the connection of a smoltcp TCP socket.
pub uninterp spec fn tcp_state_of(socket: SmolTcpSocket) -> TcpState;

/// `tcp::Socket::state`: the state of the connection.
#[verifier::external_body]
pub(crate) fn tcp_state(socket: &smoltcp::socket::tcp::Socket<'_>) -> (r: TcpState)
    ensures
        r == tcp_state_of(*socket),
{
    match socket.state() {
        SmolTcpState::Closed => TcpState::Closed,
        SmolTcpState::Listen => TcpState::Listen,
        SmolTcpState::SynSent => TcpState::SynSent,
        SmolTcpState::SynReceived => TcpState::SynReceived,
        SmolTcpState::Established => TcpState::Established,
        SmolTcpState::FinWait1 => TcpState::FinWait1,
        SmolTcpState::FinWait2 => TcpState::FinWait2,
        SmolTcpState::CloseWait => TcpState::CloseWait,
        SmolTcpState::Closing => TcpState::Closing,
        SmolTcpState::LastAck => TcpState::LastAck,
        SmolTcpState::TimeWait => TcpState::TimeWait,
    }
}

/// The octets in the receive buffer of a smoltcp TCP socket, in order:
/// what arrived from the peer and has not been read yet.
pub uninterp spec fn tcp_rx(socket: SmolTcpSocket) -> Seq<u8>;

/// The octets in the transmit buffer of a smoltcp TCP socket, in order:
/// what was handed to it and the peer has not acknowledged yet.
pub uninterp spec fn tcp_tx(socket: SmolTcpSocket) -> Seq<u8>;

/// The capacity of the transmit buffer of a smoltcp TCP socket, which it
/// was made with.
pub uninterp spec fn tcp_tx_capacity(socket: SmolTcpSocket) -> nat;

/// `tcp::Socket::can_send`: the transmit half is open (`may_send`) and the
/// transmit buffer is not full.
#[verifier::external_body]
pub(crate) fn tcp_can_send(socket: &smoltcp::socket::tcp::Socket<'_>) -> (r: bool)
    ensures
        r == (tcp_state_of(*socket).sendable() && tcp_tx(*socket).len() < tcp_tx_capacity(*socket)),
{
    socket.can_send()
}

/// `tcp::Socket::can_recv`: the receive half is open (`may_recv`) and the
/// receive buffer is not empty; as a nonempty buffer makes `may_recv` true,
/// this is whether the buffer is not empty.
#[verifier::external_body]
pub(crate) fn tcp_can_recv(socket: &smoltcp::socket::tcp::Socket<'_>) -> (r: bool)
    ensures
        r == (tcp_rx(*socket).len() > 0),
{
    socket.can_recv()
}

/// `tcp::Socket::recv_queue`: the number of octets in the receive buffer.
#[verifier::external_body]
pub(crate) fn tcp_recv_queue(socket: &smoltcp::socket::tcp::Socket<'_>) -> (r: usize)
    ensures
        r == tcp_rx(*socket).len(),
{
    socket.recv_queue()
}

/// `tcp::Socket::send_slice`: where the transmit half is open (`may_send`),
/// enqueues as many octets of `data` as the transmit buffer has room for,
/// and returns how many; refuses, changing nothing, where it is not open.
/// The state and the receive buffer are not touched.
#[verifier::external_body]
pub(crate) fn tcp_send_slice(socket: &mut smoltcp::socket::tcp::Socket<'_>, data: &[u8]) -> (r: Result<usize, ()>)
    ensures
        r is Ok <==> tcp_state_of(*old(socket)).sendable(),
        tcp_state_of(*final(socket)) == tcp_state_of(*old(socket)),
        tcp_tx_capacity(*final(socket)) == tcp_tx_capacity(*old(socket)),
        tcp_tx(*final(socket)).len() <= tcp_tx_capacity(*final(socket)),
        tcp_rx(*final(socket)) == tcp_rx(*old(socket)),
        r is Err ==> tcp_tx(*final(socket)) == tcp_tx(*old(socket)),
        r matches Ok(n) ==> (n == vstd::math::min(data@.len() as int, tcp_tx_capacity(*old(socket)) - tcp_tx(
            *old(socket),
        ).len()) && tcp_tx(*final(socket)) == tcp_tx(*old(socket)) + data@.take(n as int)),
{
    socket.send_slice(data).map_err(|_| ())
}

/// `tcp::Socket::recv_slice`: where the receive half is open (`may_recv`),
/// dequeues the first octets of the receive buffer into the front of
/// `data`, as many as are queued and fit, and returns how many; refuses,
/// changing nothing, where it is not open. The state and the transmit
/// buffer are not touched.
#[verifier::external_body]
pub(crate) fn tcp_recv_slice(socket: &mut smoltcp::socket::tcp::Socket<'_>, data: &mut [u8]) -> (r: Result<usize, ()>)
    ensures
        r is Ok <==> tcp_state_of(*old(socket)).receivable(tcp_rx(*old(socket)).len() as int),
        tcp_state_of(*final(socket)) == tcp_state_of(*old(socket)),
        final(data)@.len() == old(data)@.len(),
        tcp_tx(*final(socket)) == tcp_tx(*old(socket)),
        tcp_tx_capacity(*final(socket)) == tcp_tx_capacity(*old(socket)),
        r is Err ==> final(data)@ == old(data)@ && tcp_rx(*final(socket)) == tcp_rx(*old(socket)),
        r matches Ok(n) ==> (n == vstd::math::min(old(data)@.len() as int, tcp_rx(*old(socket)).len() as int)
            && final(data)@ == tcp_rx(*old(socket)).take(n as int) + old(data)@.skip(n as int)
            && tcp_rx(*final(socket)) == tcp_rx(*old(socket)).skip(n as int)),
{
    socket.recv_slice(data).map_err(|_| ())
}

/// `tcp::Socket::register_send_waker`: `waker` is woken when the socket
/// can send again. The buffers are not touched.
#[verifier::external_body]
pub(crate) fn tcp_register_send_waker(socket: &mut smoltcp::socket::tcp::Socket<'_>, waker: &core::task::Waker)
    ensures
        tcp_state_of(*final(socket)) == tcp_state_of(*old(socket)),
        tcp_rx(*final(socket)) == tcp_rx(*old(socket)),
        tcp_tx(*final(socket)) == tcp_tx(*old(socket)),
        tcp_tx_capacity(*final(socket)) == tcp_tx_capacity(*old(socket)),
{
    socket.register_send_waker(waker)
}

/// `tcp::Socket::register_recv_waker`: `waker` is woken when the socket
/// can receive again. The buffers are not touched.
#[verifier::external_body]
pub(crate) fn tcp_register_recv_waker(socket: &mut smoltcp::socket::tcp::Socket<'_>, waker: &core::task::Waker)
    ensures
        tcp_state_of(*final(socket)) == tcp_state_of(*old(socket)),
        tcp_rx(*final(socket)) == tcp_rx(*old(socket)),
        tcp_tx(*final(socket)) == tcp_tx(*old(socket)),
        tcp_tx_capacity(*final(socket)) == tcp_tx_capacity(*old(socket)),
{
    socket.register_recv_waker(waker)
}

/// The state that closing the transmit half of a connection in `state`
/// leads to: a socket that listens or whose connection is not yet
/// synchronized is closed; an open transmit half is ended with a FIN
/// (`FIN-WAIT-1`, or `LAST-ACK` from `CLOSE-WAIT`); otherwise the transmit
/// half is closed already and nothing changes.
pub open spec fn after_close(state: TcpState) -> TcpState {
    match state {
        TcpState::Listen | TcpState::SynSent => TcpState::Closed,
        TcpState::SynReceived | TcpState::Established => TcpState::FinWait1,
        TcpState::CloseWait => TcpState::LastAck,
        _ => state,
    }
}

/// `tcp::Socket::close`: closes the transmit half of the connection, moving
/// the state as `after_close` says; the buffers are not touched.
#[verifier::external_body]
pub(crate) fn tcp_close(socket: &mut smoltcp::socket::tcp::Socket<'_>)
    ensures
        tcp_state_of(*final(socket)) == after_close(tcp_state_of(*old(socket))),
        tcp_rx(*final(socket)) == tcp_rx(*old(socket)),
        tcp_tx(*final(socket)) == tcp_tx(*old(socket)),
        tcp_tx_capacity(*final(socket)) == tcp_tx_capacity(*old(socket)),
{
    socket.close()
}

/// `tcp::Socket::connect`: starts a connection from `local` to `remote`.
/// It refuses (`InvalidState`) an open socket; otherwise (`Unaddressable`)
/// a remote port 0, an unspecified remote address, a local port 0, an
/// unspecified local address, or a local address of another IP version
/// than the remote one. A local endpoint without an address takes the
/// source address that the interface picks for `remote`, which rests on
/// the interface's addresses and is left unsaid. On success the socket is
/// in `SYN-SENT`, and smoltcp records the connection's two ends, which are
/// returned: the remote end is `remote`; the local end has the port of
/// `local`, its address where it has one, and the IP version of `remote`.
#[verifier::external_body]
pub(crate) fn tcp_connect(
    socket: &mut smoltcp::socket::tcp::Socket<'_>,
    cx: &mut smoltcp::iface::Context,
    remote: IpEndpoint,
    local: IpListenEndpoint,
) -> (r: Result<(IpEndpoint, IpEndpoint), TcpConnectError>)
    ensures
        tcp_state_of(*old(socket)).open() ==> r matches Err(TcpConnectError::InvalidState),
        !tcp_state_of(*old(socket)).open() && (remote.port == 0 || remote.addr.unspecified() || local.port == 0
            || (local.addr matches Some(a) && (a.unspecified() || ((a is Ipv4) != (remote.addr is Ipv4)))))
            ==> r matches Err(TcpConnectError::Unaddressable),
        !tcp_state_of(*old(socket)).open() && remote.port != 0 && !remote.addr.unspecified() && local.port != 0
            && (local.addr matches Some(a) && !a.unspecified() && ((a is Ipv4) == (remote.addr is Ipv4)))
            ==> r is Ok,
        r is Err ==> tcp_state_of(*final(socket)) == tcp_state_of(*old(socket)),
        r is Ok ==> tcp_state_of(*final(socket)) == TcpState::SynSent,
        r is Ok ==> r == Ok::<(IpEndpoint, IpEndpoint), TcpConnectError>(tcp_ends_of(*final(socket))->Some_0)
            && tcp_ends_of(*final(socket)) is Some,
        r matches Ok((l, p)) ==> (p == remote && l.port == local.port && (local.addr matches Some(a)
            ==> l.addr == a) && (l.addr is Ipv4 <==> remote.addr is Ipv4)),
{
    let ip = |a: IpAddress| match a {
        IpAddress::Ipv4(b) => SmolAddress::Ipv4(Ipv4Address(b)),
        IpAddress::Ipv6(b) => SmolAddress::Ipv6(Ipv6Address(b)),
    };
    let l = SmolListenEndpoint { addr: local.addr.map(ip), port: local.port };
    socket.connect(cx, SmolEndpoint::new(ip(remote.addr), remote.port), l).map_err(|e| match e {
        ConnectError::InvalidState => TcpConnectError::InvalidState,
        ConnectError::Unaddressable => TcpConnectError::Unaddressable,
    })?;
    let end = socket.local_endpoint().unwrap();
    let addr = match end.addr {
        SmolAddress::Ipv4(a) => IpAddress::Ipv4(a.0),
        SmolAddress::Ipv6(a) => IpAddress::Ipv6(a.0),
    };
    Ok((IpEndpoint { addr, port: end.port }, remote))
}

/// The two ends of the connection of a smoltcp TCP socket, local then
/// remote, where it has recorded them.
pub uninterp spec fn tcp_ends_of(socket: SmolTcpSocket) -> Option<(IpEndpoint, IpEndpoint)>;

/// The local and the remote end of a connection's recorded ends.
pub open spec fn endpoints_of(ends: Option<(IpEndpoint, IpEndpoint)>) -> (Option<IpEndpoint>, Option<IpEndpoint>) {
    match ends {
        Some((l, p)) => (Some(l), Some(p)),
        None => (None, None),
    }
}

/// `tcp::Socket::local_endpoint` and `remote_endpoint`: the two ends of
/// the connection, where smoltcp has recorded them (it records both at
/// once, when it starts or accepts a connection).
#[verifier::external_body]
pub(crate) fn tcp_endpoints(socket: &smoltcp::socket::tcp::Socket<'_>) -> (r: (Option<IpEndpoint>, Option<IpEndpoint>))
    ensures
        r == endpoints_of(tcp_ends_of(*socket)),
{
    let conv = |e: smoltcp::wire::IpEndpoint| IpEndpoint {
        addr: match e.addr {
            smoltcp::wire::IpAddress::Ipv4(a) => IpAddress::Ipv4(a.0),
            smoltcp::wire::IpAddress::Ipv6(a) => IpAddress::Ipv6(a.0),
        },
        port: e.port,
    };
    (socket.local_endpoint().map(conv), socket.remote_endpoint().map(conv))
}

/// The slots of the receive buffer of a smoltcp UDP socket, oldest first:
/// the payload of a datagram received, or filler (`None`) that smoltcp
/// inserts to keep payloads contiguous.
pub uninterp spec fn udp_rx_slots(socket: SmolUdpSocket) -> Seq<Option<Seq<u8>>>;

/// The payloads among receive slots, oldest first.
pub open spec fn payloads(slots: Seq<Option<Seq<u8>>>) -> Seq<Seq<u8>>
    decreases slots.len(),
{
    if slots.len() == 0 {
        Seq::empty()
    } else {
        match slots[0] {
            Some(d) => seq![d] + payloads(slots.drop_first()),
            None => payloads(slots.drop_first()),
        }
    }
}

/// The receive slots once filler at their front is passed over.
pub open spec fn drop_filler(slots: Seq<Option<Seq<u8>>>) -> Seq<Option<Seq<u8>>> {
    if slots.len() > 0 && slots[0] is None {
        slots.drop_first()
    } else {
        slots
    }
}

/// Passing over filler keeps the payloads; where a payload then comes
/// first, it is the first of the payloads, and the others follow it.
pub proof fn lemma_drop_filler(slots: Seq<Option<Seq<u8>>>)
    ensures
        payloads(drop_filler(slots)) == payloads(slots),
        drop_filler(slots).len() > 0 && drop_filler(slots)[0] is Some ==> payloads(slots).len() > 0
            && payloads(slots)[0] == drop_filler(slots)[0]->Some_0 && payloads(slots).drop_first()
            == payloads(drop_filler(slots).drop_first()),
{
    let dp = drop_filler(slots);
    if dp.len() > 0 && dp[0] is Some {
        assert(payloads(dp) == seq![dp[0]->Some_0] + payloads(dp.drop_first()));
        assert((seq![dp[0]->Some_0] + payloads(dp.drop_first())).drop_first() =~= payloads(dp.drop_first()));
    }
}

/// The payloads of the datagrams in the receive buffer of a smoltcp UDP
/// socket, oldest first.
pub open spec fn udp_rx(socket: SmolUdpSocket) -> Seq<Seq<u8>> {
    payloads(udp_rx_slots(socket))
}

/// The receive buffer of a smoltcp UDP socket is not empty: a datagram or
/// filler waits in it.
pub open spec fn udp_rx_waiting(socket: SmolUdpSocket) -> bool {
    udp_rx_slots(socket).len() > 0
}

/// The slots of the transmit buffer of a smoltcp UDP socket, oldest first:
/// a datagram waiting to be sent (the endpoint it is for, and its payload),
/// or filler (`None`) that smoltcp inserts to keep payloads contiguous.
pub uninterp spec fn udp_tx_slots(socket: SmolUdpSocket) -> Seq<Option<(IpEndpoint, Seq<u8>)>>;

/// The number of slots of the transmit buffer of a smoltcp UDP socket,
/// which it was made with.
pub uninterp spec fn udp_tx_slot_count(socket: SmolUdpSocket) -> nat;

/// The datagrams among transmit slots, oldest first.
pub open spec fn datagrams(slots: Seq<Option<(IpEndpoint, Seq<u8>)>>) -> Seq<(IpEndpoint, Seq<u8>)>
    decreases slots.len(),
{
    if slots.len() == 0 {
        Seq::empty()
    } else {
        match slots.last() {
            Some(d) => datagrams(slots.drop_last()).push(d),
            None => datagrams(slots.drop_last()),
        }
    }
}

/// A datagram joining the slots joins the datagrams; filler leaves them.
pub proof fn lemma_datagrams_push(slots: Seq<Option<(IpEndpoint, Seq<u8>)>>, d: (IpEndpoint, Seq<u8>))
    ensures
        datagrams(slots.push(Some(d))) == datagrams(slots).push(d),
        datagrams(slots.push(None)) == datagrams(slots),
        datagrams(slots.push(None).push(Some(d))) == datagrams(slots).push(d),
{
    assert(slots.push(Some(d)).drop_last() =~= slots);
    assert(slots.push(None).drop_last() =~= slots);
    assert(slots.push(None).push(Some(d)).drop_last() =~= slots.push(None));
}

/// The datagrams in the transmit buffer of a smoltcp UDP socket, oldest
/// first: the endpoint each is for, and its payload.
pub open spec fn udp_tx(socket: SmolUdpSocket) -> Seq<(IpEndpoint, Seq<u8>)> {
    datagrams(udp_tx_slots(socket))
}

/// The transmit buffer of a smoltcp UDP socket has a free slot.
pub open spec fn udp_has_room(socket: SmolUdpSocket) -> bool {
    udp_tx_slots(socket).len() < udp_tx_slot_count(socket)
}

/// `udp::Socket::bind`: binds the socket to `local`. It refuses
/// (`Unaddressable`) port 0 and (`InvalidState`) a bound socket. The
/// buffers are not touched.
#[verifier::external_body]
pub(crate) fn udp_bind(socket: &mut smoltcp::socket::udp::Socket<'_>, local: IpListenEndpoint) -> (r: Result<(), UdpBindError>)
    ensures
        local.port == 0 ==> r matches Err(UdpBindError::Unaddressable),
        udp_rx_slots(*final(socket)) == udp_rx_slots(*old(socket)),
        udp_tx_slots(*final(socket)) == udp_tx_slots(*old(socket)),
        udp_tx_slot_count(*final(socket)) == udp_tx_slot_count(*old(socket)),
{
    let ip = |a: IpAddress| match a {
        IpAddress::Ipv4(b) => SmolAddress::Ipv4(Ipv4Address(b)),
        IpAddress::Ipv6(b) => SmolAddress::Ipv6(Ipv6Address(b)),
    };
    socket.bind(SmolListenEndpoint { addr: local.addr.map(ip), port: local.port }).map_err(|e| match e {
        smoltcp::socket::udp::BindError::InvalidState => UdpBindError::InvalidState,
        smoltcp::socket::udp::BindError::Unaddressable => UdpBindError::Unaddressable,
    })
}

/// `udp::Socket::can_send`: the transmit buffer has a free slot.
#[verifier::external_body]
pub(crate) fn udp_can_send(socket: &smoltcp::socket::udp::Socket<'_>) -> (r: bool)
    ensures
        r == udp_has_room(*socket),
{
    socket.can_send()
}

/// `udp::Socket::can_recv`: the receive buffer is not empty (it may hold
/// only filler).
#[verifier::external_body]
pub(crate) fn udp_can_recv(socket: &smoltcp::socket::udp::Socket<'_>) -> (r: bool)
    ensures
        r == udp_rx_waiting(*socket),
{
    socket.can_recv()
}

/// `udp::Socket::send_slice`: enqueues `data` as one datagram to `remote`.
/// It refuses (`Unaddressable`), changing nothing, a remote port 0 or an
/// unspecified remote address, and an unbound socket; (`BufferFull`) where
/// the datagram does not fit, which it never does without a free slot. A
/// datagram taken joins the end of the transmit slots, after filler where
/// the payload would otherwise wrap around; a refusal for want of room may
/// leave such filler behind. Whether the payload fits rests on the payload
/// storage, which the interface's sending frees, and is left unsaid.
#[verifier::external_body]
pub(crate) fn udp_send_slice(socket: &mut smoltcp::socket::udp::Socket<'_>, data: &[u8], remote: IpEndpoint) -> (r: Result<(), UdpSendError>)
    ensures
        (remote.port == 0 || remote.addr.unspecified()) ==> r matches Err(UdpSendError::Unaddressable),
        !udp_has_room(*old(socket)) ==> r is Err,
        r matches Err(UdpSendError::Unaddressable) ==> udp_tx_slots(*final(socket)) == udp_tx_slots(*old(socket)),
        !udp_has_room(*old(socket)) ==> udp_tx_slots(*final(socket)) == udp_tx_slots(*old(socket)),
        r is Ok ==> (udp_tx_slots(*final(socket)) == udp_tx_slots(*old(socket)).push(Some((remote, data@)))
            || udp_tx_slots(*final(socket)) == udp_tx_slots(*old(socket)).push(None).push(
            Some((remote, data@)),
        )),
        r is Err ==> (udp_tx_slots(*final(socket)) == udp_tx_slots(*old(socket)) || udp_tx_slots(
            *final(socket),
        ) == udp_tx_slots(*old(socket)).push(None)),
        udp_tx_slot_count(*final(socket)) == udp_tx_slot_count(*old(socket)),
        udp_rx_slots(*final(socket)) == udp_rx_slots(*old(socket)),
{
    let addr = match remote.addr {
        IpAddress::Ipv4(b) => SmolAddress::Ipv4(Ipv4Address(b)),
        IpAddress::Ipv6(b) => SmolAddress::Ipv6(Ipv6Address(b)),
    };
    socket.send_slice(data, SmolEndpoint::new(addr, remote.port)).map_err(|e| match e {
        smoltcp::socket::udp::SendError::Unaddressable => UdpSendError::Unaddressable,
        smoltcp::socket::udp::SendError::BufferFull => UdpSendError::BufferFull,
    })
}

/// `udp::Socket::recv_slice`: passes over filler at the front of the
/// receive buffer, then dequeues the datagram that comes first into
/// `data`, as much of it as fits, and returns how many octets were copied;
/// refuses where no slot is left, with only the filler passed over gone.
/// The transmit buffer is not touched.
#[verifier::external_body]
pub(crate) fn udp_recv_slice(socket: &mut smoltcp::socket::udp::Socket<'_>, data: &mut [u8]) -> (r: Result<usize, ()>)
    ensures
        final(data)@.len() == old(data)@.len(),
        udp_tx_slots(*final(socket)) == udp_tx_slots(*old(socket)),
        udp_tx_slot_count(*final(socket)) == udp_tx_slot_count(*old(socket)),
        r is Err <==> drop_filler(udp_rx_slots(*old(socket))).len() == 0,
        r is Err ==> final(data)@ == old(data)@ && udp_rx_slots(*final(socket)) == drop_filler(
            udp_rx_slots(*old(socket)),
        ),
        r matches Ok(n) ==> (drop_filler(udp_rx_slots(*old(socket)))[0] matches Some(d) && n
            == vstd::math::min(old(data)@.len() as int, d.len() as int) && final(data)@ == d.take(n as int)
            + old(data)@.skip(n as int) && udp_rx_slots(*final(socket)) == drop_filler(
            udp_rx_slots(*old(socket)),
        ).drop_first()),
{
    socket.recv_slice(data).map(|(n, _)| n).map_err(|_| ())
}

/// `udp::Socket::register_send_waker`: `waker` is woken when the socket
/// can send again. The buffers are not touched.
#[verifier::external_body]
pub(crate) fn udp_register_send_waker(socket: &mut smoltcp::socket::udp::Socket<'_>, waker: &core::task::Waker)
    ensures
        udp_rx_slots(*final(socket)) == udp_rx_slots(*old(socket)),
        udp_tx_slots(*final(socket)) == udp_tx_slots(*old(socket)),
        udp_tx_slot_count(*final(socket)) == udp_tx_slot_count(*old(socket)),
{
    socket.register_send_waker(waker)
}

/// `udp::Socket::register_recv_waker`: `waker` is woken when the socket
/// can receive again. The buffers are not touched.
#[verifier::external_body]
pub(crate) fn udp_register_recv_waker(socket: &mut smoltcp::socket::udp::Socket<'_>, waker: &core::task::Waker)
    ensures
        udp_rx_slots(*final(socket)) == udp_rx_slots(*old(socket)),
        udp_tx_slots(*final(socket)) == udp_tx_slots(*old(socket)),
        udp_tx_slot_count(*final(socket)) == udp_tx_slot_count(*old(socket)),
{
    socket.register_recv_waker(waker)
}

/// `udp::Socket::close`: unbinds the socket and empties its buffers.
#[verifier::external_body]
pub(crate) fn udp_close(socket: &mut smoltcp::socket::udp::Socket<'_>)
    ensures
        udp_rx_slots(*final(socket)) == Seq::<Option<Seq<u8>>>::empty(),
        udp_tx_slots(*final(socket)) == Seq::<Option<(IpEndpoint, Seq<u8>)>>::empty(),
        udp_tx_slot_count(*final(socket)) == udp_tx_slot_count(*old(socket)),
{
    socket.close()
}

} // verus!

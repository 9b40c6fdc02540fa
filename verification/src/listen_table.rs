//! The table of listening TCP ports. Each listened port holds the endpoint
//! it listens on and a queue of the connections that arrived for it, which
//! `accept` hands out once they are established.
use vstd::prelude::*;
use std::collections::VecDeque;
use vstd::multiset::Multiset;
use crate::endpoint::{IpAddress, IpEndpoint, IpListenEndpoint, all_zero, ipv4_mapped_prefix};
use crate::error::SysError;

verus! {

/// The capacity that the queue of a listened port is made with.
pub const LISTEN_QUEUE_SIZE: usize = 512;

/// Number of ports.
pub const PORT_NUM: usize = 65536;

/// What one listened port holds: the endpoint listened on, and the queue
/// of handles of the connections that arrived for it.
pub struct ListenTableEntry<H> {
    listen_endpoint: IpListenEndpoint,
    syn_queue: VecDeque<H>,
}

/// Whether a connection to `addr` is one that a socket listening on
/// `listen` takes: the listened address is `addr` itself, or it is the
/// unspecified IPv6 address, or it is the IPv4-mapped IPv6 address of the
/// IPv4 address `addr`. A listen endpoint without an address takes none.
pub open spec fn listen_accepts(listen: IpListenEndpoint, addr: IpAddress) -> bool {
    match listen.addr {
        Some(ip) => {
            ||| ip == addr
            ||| (ip matches IpAddress::Ipv6(v6) && (all_zero(v6@) || (addr matches IpAddress::Ipv4(v4)
                && v6@.subrange(12, 16) == v4@ && ipv4_mapped_prefix(v6@))))
        },
        None => false,
    }
}

impl<H> ListenTableEntry<H> {
    /// The endpoint listened on.
    pub closed spec fn endpoint(&self) -> IpListenEndpoint {
        self.listen_endpoint
    }

    /// The handles of the connections that arrived, oldest first.
    pub closed spec fn queue(&self) -> Seq<H> {
        self.syn_queue@
    }

    /// An entry listening on `listen_endpoint`, with an empty queue.
    pub fn new(listen_endpoint: IpListenEndpoint) -> (r: Self)
        ensures
            r.endpoint() == listen_endpoint,
            r.queue() == Seq::<H>::empty(),
    {
        ListenTableEntry { listen_endpoint, syn_queue: VecDeque::with_capacity(LISTEN_QUEUE_SIZE) }
    }

    /// Whether this entry takes a connection to `addr`.
    pub fn can_accept(&self, addr: IpAddress) -> (r: bool)
        ensures
            r == listen_accepts(self.endpoint(), addr),
    {
        match self.listen_endpoint.addr {
            Some(ip) => {
                if ip.equals(&addr) {
                    return true;
                }
                if let IpAddress::Ipv6(ipv6) = ip {
                    if ip.is_unspecified() {
                        return true;
                    }
                    if let IpAddress::Ipv4(v4) = addr {
                        let same = ipv6[12] == v4[0] && ipv6[13] == v4[1] && ipv6[14] == v4[2]
                            && ipv6[15] == v4[3];
                        if same && crate::endpoint::ipv6_is_ipv4_mapped(&ipv6) {
                            assert(ipv6@.subrange(12, 16) =~= v4@);
                            return true;
                        }
                        proof {
                            if ipv6@.subrange(12, 16) == v4@ {
                                assert(ipv6@.subrange(12, 16)[0] == v4@[0]);
                                assert(ipv6@.subrange(12, 16)[1] == v4@[1]);
                                assert(ipv6@.subrange(12, 16)[2] == v4@[2]);
                                assert(ipv6@.subrange(12, 16)[3] == v4@[3]);
                            }
                        }
                    }
                }
                false
            },
            None => false,
        }
    }
}


/// What a port of the table holds: nothing, or the endpoint listened on and
/// the queue of arrived connections.
pub type PortView<H> = Option<(IpListenEndpoint, Seq<H>)>;

/// The view of one slot of the table.
pub open spec fn slot_view<H>(e: Option<ListenTableEntry<H>>) -> PortView<H> {
    match e {
        Some(entry) => Some((entry.endpoint(), entry.queue())),
        None => None,
    }
}

/// The queue after `VecDeque::swap_remove_front(i)`: the element at `i` is
/// replaced by the front element, and the front is dropped.
pub open spec fn swap_remove_front<H>(q: Seq<H>, i: int) -> Seq<H> {
    if i == 0 {
        q.drop_first()
    } else {
        q.drop_first().update(i - 1, q[0])
    }
}

/// The table after listening on `le`.
pub open spec fn after_listen<H>(v: Seq<PortView<H>>, le: IpListenEndpoint) -> Seq<PortView<H>> {
    v.update(le.port as int, Some((le, Seq::empty())))
}

/// The table after no longer listening on `port`.
pub open spec fn after_unlisten<H>(v: Seq<PortView<H>>, port: u16) -> Seq<PortView<H>> {
    v.update(port as int, None)
}

/// Whether `is_connected` reported some connection of the queue as
/// established.
pub open spec fn some_reported_connected<H, F: Fn(H) -> bool>(q: Seq<H>, is_connected: F) -> bool {
    exists|i: int| 0 <= i < q.len() && #[trigger] is_connected.ensures((q[i],), true)
}

/// Whether `is_connected` reported every connection of the queue as not
/// established.
pub open spec fn none_reported_connected<H, F: Fn(H) -> bool>(q: Seq<H>, is_connected: F) -> bool {
    forall|i: int| 0 <= i < q.len() ==> #[trigger] is_connected.ensures((q[i],), false)
}

/// The table after a connection arrived on `port` for which `made` was
/// made: the handle made, if any, joins the end of the queue.
pub open spec fn after_incoming<H>(v: Seq<PortView<H>>, port: u16, made: Option<H>) -> Seq<PortView<H>> {
    let e = v[port as int]->Some_0;
    v.update(
        port as int,
        Some(
            (
                e.0,
                match made {
                    Some(h) => e.1.push(h),
                    None => e.1,
                },
            ),
        ),
    )
}

/// Whether `accept` picks the connection at index `i`: it is the first in
/// the queue that `is_connected` reported as established.
pub open spec fn accept_picks<H, F: Fn(H) -> bool>(q: Seq<H>, i: int, is_connected: F) -> bool {
    &&& 0 <= i < q.len()
    &&& is_connected.ensures((q[i],), true)
    &&& forall|j: int| 0 <= j < i ==> is_connected.ensures((q[j],), false)
}

/// Whether `accept` on `port` took `h` off the queue of `before`, leaving
/// `after`, and `addrs` are the endpoints that `get_addrs` gave for it.
pub open spec fn accepted<H, F: Fn(H) -> bool, G: Fn(H) -> (IpEndpoint, IpEndpoint)>(
    before: Seq<PortView<H>>,
    after: Seq<PortView<H>>,
    port: u16,
    h: H,
    addrs: (IpEndpoint, IpEndpoint),
    is_connected: F,
    get_addrs: G,
) -> bool {
    let e = before[port as int]->Some_0;
    exists|i: int|
        #[trigger] accept_picks(e.1, i, is_connected) && e.1[i] == h && after == before.update(
            port as int,
            Some((e.0, swap_remove_front(e.1, i))),
        ) && get_addrs.ensures((h,), addrs)
}

/// The first port of the ephemeral range.
pub const PORT_START: u16 = 0xc000;

/// The last port of the ephemeral range.
pub const PORT_END: u16 = 0xffff;

/// The number of ports of the ephemeral range.
pub const PORT_RANGE: u32 = 0x4000;

/// How many steps of the cyclic scan through the ephemeral range lead from
/// port `from` to port `to`.
pub open spec fn cyclic_distance(from: u16, to: u16) -> int {
    if to >= from {
        to - from
    } else {
        (to - PORT_START) + (PORT_END + 1 - from)
    }
}

/// Whether the scan for an ephemeral port that starts at `from` stops at
/// `port`: the first port, in scan order, that nothing listens on.
pub open spec fn ephemeral_pick<H>(v: Seq<PortView<H>>, from: u16, port: u16) -> bool {
    &&& PORT_START <= port
    &&& v[port as int] is None
    &&& forall|q: u16|
        PORT_START <= q && cyclic_distance(from, q) < cyclic_distance(from, port)
            ==> #[trigger] v[q as int] is Some
}

/// Whether a connection request for `dst` is queued: its port is listened
/// on, on an address that accepts the address of `dst`, and the queue of
/// that port holds no more than `LISTEN_QUEUE_SIZE` connections.
pub open spec fn queues_request<H>(v: Seq<PortView<H>>, dst: IpEndpoint) -> bool {
    v[dst.port as int] matches Some(e) && listen_accepts(e.0, dst.addr) && e.1.len() <= LISTEN_QUEUE_SIZE
}

/// The table of listening ports, one slot per port.
pub struct ListenTable<H> {
    listentabelentry_queue: Vec<Option<ListenTableEntry<H>>>,
}

impl<H> View for ListenTable<H> {
    type V = Seq<PortView<H>>;

    closed spec fn view(&self) -> Seq<PortView<H>> {
        self.listentabelentry_queue@.map_values(|e: Option<ListenTableEntry<H>>| slot_view(e))
    }
}

impl<H: Copy> ListenTable<H> {
    /// The table has one slot per port.
    pub closed spec fn wf(&self) -> bool {
        self.listentabelentry_queue@.len() == PORT_NUM
    }

    /// The table has one slot per port.
    pub proof fn lemma_len(&self)
        requires
            self.wf(),
        ensures
            self@.len() == PORT_NUM,
    {
    }

    /// A table in which no port is listened on.
    pub fn new() -> (r: Self)
        ensures
            r.wf(),
            r@.len() == PORT_NUM,
            forall|p: int| 0 <= p < PORT_NUM ==> r@[p] is None,
    {
        let mut tcp: Vec<Option<ListenTableEntry<H>>> = Vec::new();
        let mut i: usize = 0;
        while i < PORT_NUM
            invariant
                0 <= i <= PORT_NUM,
                tcp@.len() == i,
                forall|p: int| 0 <= p < i ==> tcp@[p] is None,
            decreases PORT_NUM - i,
        {
            tcp.push(None);
            i = i + 1;
        }
        let r = ListenTable { listentabelentry_queue: tcp };
        assert(r@.len() == PORT_NUM);
        r
    }

    /// Whether `port` can be listened on: nothing listens on it yet.
    pub fn can_listen(&self, port: u16) -> (r: bool)
        requires
            self.wf(),
        ensures
            r == (self@[port as int] is None),
    {
        self.listentabelentry_queue[port as usize].is_none()
    }

    /// Listens on `listen_endpoint`: its port takes an entry with an empty
    /// queue, unless something listens on that port already, which is
    /// `EADDRINUSE` and changes nothing.
    pub fn listen(&mut self, listen_endpoint: IpListenEndpoint) -> (r: Result<(), SysError>)
        requires
            old(self).wf(),
            listen_endpoint.port != 0,
        ensures
            final(self).wf(),
            old(self)@[listen_endpoint.port as int] is None ==> r is Ok && final(self)@
                == after_listen(old(self)@, listen_endpoint),
            old(self)@[listen_endpoint.port as int] is Some ==> r == Err::<(), SysError>(
                SysError::EADDRINUSE,
            ) && final(self)@ == old(self)@,
    {
        let port = listen_endpoint.port;
        if self.listentabelentry_queue[port as usize].is_none() {
            self.listentabelentry_queue.set(port as usize, Some(ListenTableEntry::new(listen_endpoint)));
            assert(self@ =~= after_listen(old(self)@, listen_endpoint));
            Ok(())
        } else {
            Err(SysError::EADDRINUSE)
        }
    }

    /// No longer listens on `port`. Returns the handles that were queued
    /// on it; their sockets are to be released.
    pub fn unlisten(&mut self, port: u16) -> (r: VecDeque<H>)
        requires
            old(self).wf(),
        ensures
            final(self).wf(),
            final(self)@ == after_unlisten(old(self)@, port),
            old(self)@[port as int] matches Some(e) ==> r@ == e.1,
            old(self)@[port as int] is None ==> r@ == Seq::<H>::empty(),
    {
        let mut slot: Option<ListenTableEntry<H>> = None;
        self.listentabelentry_queue.set_and_swap(port as usize, &mut slot);
        assert(self@ =~= after_unlisten(old(self)@, port));
        match slot {
            Some(entry) => entry.syn_queue,
            None => VecDeque::new(),
        }
    }

    /// Whether a connection queued on `port` is established, as
    /// `is_connected` reports; `false` where nothing listens on `port`.
    pub fn can_accept<F: Fn(H) -> bool>(&self, port: u16, is_connected: &F) -> (r: bool)
        requires
            self.wf(),
            forall|h: H| is_connected.requires((h,)),
        ensures
            self@[port as int] is None ==> !r,
            self@[port as int] is Some && r ==> some_reported_connected(
                self@[port as int]->Some_0.1,
                *is_connected,
            ),
            self@[port as int] is Some && !r ==> none_reported_connected(
                self@[port as int]->Some_0.1,
                *is_connected,
            ),
    {
        match &self.listentabelentry_queue[port as usize] {
            Some(entry) => {
                let q = &entry.syn_queue;
                let n = q.len();
                let mut i: usize = 0;
                assert(self@[port as int] == Some((entry.endpoint(), q@)));
                while i < n
                    invariant
                        0 <= i <= n,
                        n == q@.len(),
                        self@[port as int] == Some((entry.endpoint(), q@)),
                        forall|h: H| is_connected.requires((h,)),
                        forall|j: int| 0 <= j < i ==> is_connected.ensures((q@[j],), false),
                    decreases n - i,
                {
                    let h = q[i];
                    if is_connected(h) {
                        assert(0 <= i < q@.len() && (*is_connected).ensures((q@[i as int],), true));
                        return true;
                    }
                    i = i + 1;
                }
                false
            },
            None => false,
        }
    }

    /// Takes an established connection off the queue of `port`: the first
    /// one that `is_connected` reports as established, whose place in the
    /// queue the front element then takes. Returns its handle and the
    /// endpoints that `get_addrs` gives for it. `EAGAIN` where nothing
    /// listens on `port` or no queued connection is established yet.
    pub fn accept<F: Fn(H) -> bool, G: Fn(H) -> (IpEndpoint, IpEndpoint)>(
        &mut self,
        port: u16,
        is_connected: &F,
        get_addrs: &G,
    ) -> (r: Result<(H, (IpEndpoint, IpEndpoint)), SysError>)
        requires
            old(self).wf(),
            forall|h: H| is_connected.requires((h,)),
            forall|h: H| get_addrs.requires((h,)),
        ensures
            final(self).wf(),
            r is Ok ==> old(self)@[port as int] is Some && accepted(
                old(self)@,
                final(self)@,
                port,
                r->Ok_0.0,
                r->Ok_0.1,
                *is_connected,
                *get_addrs,
            ),
            r is Err ==> r == Err::<(H, (IpEndpoint, IpEndpoint)), SysError>(SysError::EAGAIN)
                && final(self)@ == old(self)@,
            r is Err && old(self)@[port as int] is Some ==> none_reported_connected(
                old(self)@[port as int]->Some_0.1,
                *is_connected,
            ),
    {
        let mut slot: Option<ListenTableEntry<H>> = None;
        self.listentabelentry_queue.set_and_swap(port as usize, &mut slot);
        match slot {
            None => {
                self.listentabelentry_queue.set_and_swap(port as usize, &mut slot);
                assert(self@ =~= old(self)@);
                Err(SysError::EAGAIN)
            },
            Some(mut entry) => {
                let ghost q0 = entry.syn_queue@;
                assert(old(self)@[port as int] == Some((entry.listen_endpoint, q0)));
                let n = entry.syn_queue.len();
                let mut i: usize = 0;
                let mut found = false;
                while i < n
                    invariant_except_break
                        0 <= i <= n,
                        n == q0.len(),
                        entry.syn_queue@ == q0,
                        forall|h: H| is_connected.requires((h,)),
                        forall|j: int| 0 <= j < i ==> is_connected.ensures((q0[j],), false),
                        !found,
                    ensures
                        0 <= i <= n,
                        n == q0.len(),
                        entry.syn_queue@ == q0,
                        forall|j: int| 0 <= j < i ==> is_connected.ensures((q0[j],), false),
                        found ==> i < n && is_connected.ensures((q0[i as int],), true),
                        !found ==> i == n,
                    decreases n - i,
                {
                    let h = entry.syn_queue[i];
                    if is_connected(h) {
                        found = true;
                        break;
                    }
                    i = i + 1;
                }
                if !found {
                    let mut back = Some(entry);
                    self.listentabelentry_queue.set_and_swap(port as usize, &mut back);
                    assert(self@ =~= old(self)@);
                    return Err(SysError::EAGAIN);
                }
                let handle = entry.syn_queue[i];
                let addrs = get_addrs(handle);
                let front = entry.syn_queue.pop_front().unwrap();
                if i > 0 {
                    let _ = entry.syn_queue.remove(i - 1);
                    entry.syn_queue.insert(i - 1, front);
                }
                assert(entry.syn_queue@ =~= swap_remove_front(q0, i as int));
                let ghost ep = entry.listen_endpoint;
                let mut back = Some(entry);
                self.listentabelentry_queue.set_and_swap(port as usize, &mut back);
                assert(self@ =~= old(self)@.update(port as int, Some((ep, swap_remove_front(q0, i as int)))));
                assert(accept_picks(q0, i as int, *is_connected) && q0[i as int] == handle
                    && self@ == old(self)@.update(port as int, Some((ep, swap_remove_front(q0, i as int))))
                    && (*get_addrs).ensures((handle,), addrs));
                assert(old(self)@[port as int]->Some_0.1 == q0);
                assert(old(self)@[port as int]->Some_0.0 == ep);
                assert(accepted(old(self)@, self@, port, handle, addrs, *is_connected, *get_addrs));
                Ok((handle, addrs))
            },
        }
    }

    /// A connection request from `src` arrived for `dst`. Where something
    /// listens on the port of `dst`, on an address that accepts the address
    /// of `dst`, and its queue holds no more than `LISTEN_QUEUE_SIZE`
    /// connections, `make_socket` is given the endpoint listened on and
    /// makes a socket listening on it; the handle it returns, if any, joins
    /// the queue of that port. Otherwise the request is dropped and the
    /// table is left as it was.
    pub fn incoming_tcp_packet<F: FnOnce(IpListenEndpoint) -> Option<H>>(
        &mut self,
        src: IpEndpoint,
        dst: IpEndpoint,
        make_socket: F,
    )
        requires
            old(self).wf(),
            forall|e: IpListenEndpoint| make_socket.requires((e,)),
        ensures
            final(self).wf(),
            !queues_request(old(self)@, dst) ==> final(self)@ == old(self)@,
            queues_request(old(self)@, dst) ==> exists|made: Option<H>|
                #[trigger] make_socket.ensures((old(self)@[dst.port as int]->Some_0.0,), made)
                    && final(self)@ == after_incoming(old(self)@, dst.port, made),
    {
        let port = dst.port;
        let mut slot: Option<ListenTableEntry<H>> = None;
        self.listentabelentry_queue.set_and_swap(port as usize, &mut slot);
        match slot {
            None => {
                self.listentabelentry_queue.set_and_swap(port as usize, &mut slot);
                assert(self@ =~= old(self)@);
            },
            Some(mut entry) => {
                let ghost q0 = entry.syn_queue@;
                assert(old(self)@[port as int] == Some((entry.listen_endpoint, q0)));
                if !entry.can_accept(dst.addr) || entry.syn_queue.len() > LISTEN_QUEUE_SIZE {
                    let mut back = Some(entry);
                    self.listentabelentry_queue.set_and_swap(port as usize, &mut back);
                    assert(self@ =~= old(self)@);
                    return;
                }
                let made = make_socket(entry.listen_endpoint);
                if let Some(handle) = made {
                    entry.syn_queue.push_back(handle);
                }
                let ghost ep = entry.listen_endpoint;
                let ghost q1 = entry.syn_queue@;
                let mut back = Some(entry);
                self.listentabelentry_queue.set_and_swap(port as usize, &mut back);
                assert(self@ =~= old(self)@.update(port as int, Some((ep, q1))));
                assert(make_socket.ensures((ep,), made) && self@ == after_incoming(old(self)@, port, made));
            },
        }
    }

    /// A free port of the ephemeral range (0xc000..=0xffff): the scan starts
    /// at `curr` and moves on, wrapping round at the end of the range, until
    /// a port that nothing listens on; `curr` is left at that port. Where
    /// every port of the range is listened on, the scan ends after one full
    /// round with `EADDRINUSE`, and `curr` back where it started.
    pub fn get_ephemeral_port(&self, curr: &mut u16) -> (r: Result<u16, SysError>)
        requires
            self.wf(),
            PORT_START <= *old(curr),
        ensures
            (exists|p: u16| PORT_START <= p && #[trigger] self@[p as int] is None) ==> r == Ok::<
                u16,
                SysError,
            >(*final(curr)) && ephemeral_pick(self@, *old(curr), *final(curr)),
            !(exists|p: u16| PORT_START <= p && #[trigger] self@[p as int] is None) ==> r == Err::<
                u16,
                SysError,
            >(SysError::EADDRINUSE) && *final(curr) == *old(curr),
    {
        let ghost start = *curr;
        let mut tries: u32 = 0;
        while tries < PORT_RANGE
            invariant
                self.wf(),
                PORT_START <= *curr,
                PORT_START <= start,
                start == *old(curr),
                tries <= PORT_RANGE,
                tries < PORT_RANGE ==> cyclic_distance(start, *curr) == tries,
                tries == PORT_RANGE ==> *curr == start,
                forall|q: u16|
                    PORT_START <= q && cyclic_distance(start, q) < tries ==> #[trigger] self@[q as int] is Some,
            decreases PORT_RANGE - tries,
        {
            let port: u16 = *curr;
            if self.can_listen(port) {
                return Ok(port);
            }
            if *curr == PORT_END {
                *curr = PORT_START;
            } else {
                *curr = *curr + 1;
            }
            tries = tries + 1;
        }
        proof {
            assert forall|p: u16| PORT_START <= p implies #[trigger] self@[p as int] is Some by {
                assert(cyclic_distance(start, p) < PORT_RANGE);
            }
        }
        Err(SysError::EADDRINUSE)
    }
}

/// Listening on a free port and then no longer listening on it leaves the
/// table as it was.
pub proof fn lemma_listen_then_unlisten<H>(v: Seq<PortView<H>>, le: IpListenEndpoint)
    requires
        v.len() == PORT_NUM,
        v[le.port as int] is None,
    ensures
        after_unlisten(after_listen(v, le), le.port) == v,
{
    assert(after_unlisten(after_listen(v, le), le.port) =~= v);
}

/// After listening on a port, nothing more can listen on it; after no
/// longer listening on it, it can be listened on again; other ports are not
/// touched.
pub proof fn lemma_listen_unlisten_ports<H>(v: Seq<PortView<H>>, le: IpListenEndpoint, port: u16, other: u16)
    requires
        v.len() == PORT_NUM,
        other != le.port,
        other != port,
    ensures
        after_listen(v, le)[le.port as int] is Some,
        after_unlisten(v, port)[port as int] is None,
        after_listen(v, le)[other as int] == v[other as int],
        after_unlisten(v, port)[other as int] == v[other as int],
{
}

/// Accepting takes exactly the picked handle off the queue: the queue
/// loses one element, and holds the same handles as before but for one
/// occurrence of the one handed out.
pub proof fn lemma_accept_removes_one<H>(q: Seq<H>, i: int)
    requires
        0 <= i < q.len(),
    ensures
        swap_remove_front(q, i).len() == q.len() - 1,
        swap_remove_front(q, i).to_multiset() == q.to_multiset().remove(q[i]),
{
    broadcast use vstd::seq_lib::group_to_multiset_ensures;
    let rest = q.drop_first();
    assert(q =~= seq![q[0]] + rest);
    if i == 0 {
        assert(q =~= rest.insert(0, q[0]));
        rest.to_multiset_ensures();
    } else {
        let r = swap_remove_front(q, i);
        // r = rest with rest[i - 1] (= q[i]) replaced by q[0]
        assert(rest =~= r.update(i - 1, q[i]));
        lemma_update_multiset(r, i - 1, q[i]);
        lemma_update_multiset(rest, i - 1, q[0]);
        assert(r =~= rest.update(i - 1, q[0]));
        assert(q.to_multiset() =~= rest.to_multiset().insert(q[0])) by {
            assert(q =~= rest.insert(0, q[0]));
            vstd::seq_lib::lemma_seq_union_to_multiset_commutative(seq![q[0]], rest);
            vstd::seq_lib::lemma_multiset_commutative(seq![q[0]], rest);
        }
    }
}

/// Whether `is_connected` gives one answer per handle.
pub open spec fn reports_deterministically<H, F: Fn(H) -> bool>(is_connected: F) -> bool {
    forall|h: H, b1: bool, b2: bool|
        #![trigger is_connected.ensures((h,), b1), is_connected.ensures((h,), b2)]
        is_connected.ensures((h,), b1) && is_connected.ensures((h,), b2) ==> b1 == b2
}

/// The queue of connections of a listened port.
pub open spec fn queue_at<H>(v: Seq<PortView<H>>, port: u16) -> Seq<H> {
    v[port as int]->Some_0.1
}

/// With a check that gives one answer per handle, there is one position
/// that `accept` may pick.
pub proof fn lemma_accept_pick_unique<H, F: Fn(H) -> bool>(q: Seq<H>, i: int, j: int, is_connected: F)
    requires
        reports_deterministically(is_connected),
        accept_picks(q, i, is_connected),
        accept_picks(q, j, is_connected),
    ensures
        i == j,
{
    if i < j {
        assert(is_connected.ensures((q[i],), false));
        assert(is_connected.ensures((q[i],), true));
    } else if j < i {
        assert(is_connected.ensures((q[j],), false));
        assert(is_connected.ensures((q[j],), true));
    }
}

/// A connection that arrives for a listened port, while no connection
/// queued there is established, and that is then reported established, is
/// what `accept` hands out: the queue reports an established connection (so
/// `accept` does not fail), the position of the new connection is one that
/// `accept` picks, every position it may pick holds the new connection, and
/// taking it off leaves the connections that were queued before.
pub proof fn lemma_incoming_then_accept<H, F: Fn(H) -> bool>(
    v: Seq<PortView<H>>,
    port: u16,
    h: H,
    is_connected: F,
)
    requires
        v.len() == PORT_NUM,
        v[port as int] is Some,
        reports_deterministically(is_connected),
        none_reported_connected(queue_at(v, port), is_connected),
        is_connected.ensures((h,), true),
    ensures
        !none_reported_connected(queue_at(after_incoming(v, port, Some(h)), port), is_connected),
        accept_picks(queue_at(after_incoming(v, port, Some(h)), port), queue_at(v, port).len() as int, is_connected),
        forall|i: int|
            #[trigger] accept_picks(queue_at(after_incoming(v, port, Some(h)), port), i, is_connected)
                ==> queue_at(after_incoming(v, port, Some(h)), port)[i] == h && swap_remove_front(
                queue_at(after_incoming(v, port, Some(h)), port),
                i,
            ).to_multiset() == queue_at(v, port).to_multiset(),
{
    broadcast use vstd::seq_lib::group_to_multiset_ensures;
    let q = queue_at(v, port);
    let q2 = queue_at(after_incoming(v, port, Some(h)), port);
    let n = q.len() as int;
    assert(q2 == q.push(h));
    assert(q2[n] == h);
    assert forall|j: int| 0 <= j < n implies is_connected.ensures((q2[j],), false) by {
        assert(q2[j] == q[j]);
    }
    assert(accept_picks(q2, n, is_connected));
    if none_reported_connected(q2, is_connected) {
        assert(is_connected.ensures((q2[n],), false));
    }
    assert forall|i: int| #[trigger] accept_picks(q2, i, is_connected) implies q2[i] == h
        && swap_remove_front(q2, i).to_multiset() == q.to_multiset() by {
        lemma_accept_pick_unique(q2, i, n, is_connected);
        lemma_accept_removes_one(q2, n);
        assert(q2.to_multiset() == q.to_multiset().insert(h));
        assert(q.to_multiset().insert(h).remove(h) =~= q.to_multiset());
    }
}

/// Replacing one element of a sequence replaces one occurrence of it in
/// the multiset of its elements.
pub proof fn lemma_update_multiset<H>(s: Seq<H>, k: int, x: H)
    requires
        0 <= k < s.len(),
    ensures
        s.update(k, x).to_multiset() == s.to_multiset().remove(s[k]).insert(x),
{
    broadcast use vstd::seq_lib::group_to_multiset_ensures;
    let before = s.subrange(0, k);
    let after = s.subrange(k + 1, s.len() as int);
    assert(s =~= before + seq![s[k]] + after);
    assert(s.update(k, x) =~= before + seq![x] + after);
    vstd::seq_lib::lemma_multiset_commutative(before + seq![s[k]], after);
    vstd::seq_lib::lemma_multiset_commutative(before, seq![s[k]]);
    vstd::seq_lib::lemma_multiset_commutative(before + seq![x], after);
    vstd::seq_lib::lemma_multiset_commutative(before, seq![x]);
    assert(seq![s[k]].to_multiset() =~= Multiset::empty().insert(s[k])) by {
        assert(seq![s[k]] =~= Seq::<H>::empty().push(s[k]));
    }
    assert(seq![x].to_multiset() =~= Multiset::empty().insert(x)) by {
        assert(seq![x] =~= Seq::<H>::empty().push(x));
    }
    assert(s.update(k, x).to_multiset() =~= s.to_multiset().remove(s[k]).insert(x));
}

/// Whether a queued connection counts as established: its smoltcp
/// socket has left `LISTEN` and `SYN-RECEIVED`.
pub fn is_connected(socket: &smoltcp::socket::tcp::Socket<'_>) -> (r: bool)
    ensures
        r == crate::smol::tcp_state_of(*socket).connected(),
{
    let state = crate::smol::tcp_state(socket);
    state.is_connected()
}

/// The local and remote endpoints of a queued connection, where smoltcp
/// has them.
pub fn get_dst_addr(socket: &smoltcp::socket::tcp::Socket<'_>) -> (r: (Option<IpEndpoint>, Option<IpEndpoint>))
    ensures
        r == crate::smol::endpoints_of(crate::smol::tcp_ends_of(*socket)),
{
    crate::smol::tcp_endpoints(socket)
}

} // verus!

//! The map from UDP ports to the descriptor and endpoint bound on them.
use vstd::prelude::*;
use std::collections::BTreeMap;
use crate::endpoint::IpListenEndpoint;

verus! {

/// A port number.
pub type Port = u16;

/// A file descriptor.
pub type Fd = usize;

/// Which descriptor, bound to which endpoint, holds each UDP port.
pub struct PortMap {
    map: BTreeMap<Port, (Fd, IpListenEndpoint)>,
}

impl View for PortMap {
    type V = Map<Port, (Fd, IpListenEndpoint)>;

    closed spec fn view(&self) -> Map<Port, (Fd, IpListenEndpoint)> {
        self.map@
    }
}

impl PortMap {
    /// A map in which no port is held.
    pub fn new() -> (r: PortMap)
        ensures
            r@ == Map::<Port, (Fd, IpListenEndpoint)>::empty(),
    {
        PortMap { map: BTreeMap::new() }
    }

    /// The descriptor and endpoint that hold `port`, if any.
    pub fn get(&self, port: Port) -> (r: Option<(Fd, IpListenEndpoint)>)
        ensures
            r == (if self@.contains_key(port) {
                Some(self@[port])
            } else {
                None
            }),
    {
        broadcast use vstd::std_specs::btree::group_btree_axioms;
        match self.map.get(&port) {
            Some(v) => Some(*v),
            None => None,
        }
    }

    /// Frees `port`.
    pub fn remove(&mut self, port: Port)
        ensures
            final(self)@ == old(self)@.remove(port),
    {
        broadcast use vstd::std_specs::btree::group_btree_axioms;
        self.map.remove(&port);
    }

    /// Records that descriptor `fd`, bound to `listenport`, holds `port`.
    pub fn insert(&mut self, port: Port, fd: Fd, listenport: IpListenEndpoint)
        ensures
            final(self)@ == old(self)@.insert(port, (fd, listenport)),
    {
        broadcast use vstd::std_specs::btree::group_btree_axioms;
        self.map.insert(port, (fd, listenport));
    }
}

/// What is inserted for a port is what is read back for it, and other
/// ports read as before; a removed port reads as free.
pub proof fn lemma_port_map_insert_get(
    m: Map<Port, (Fd, IpListenEndpoint)>,
    port: Port,
    other: Port,
    v: (Fd, IpListenEndpoint),
)
    requires
        other != port,
    ensures
        m.insert(port, v).contains_key(port) && m.insert(port, v)[port] == v,
        m.insert(port, v).contains_key(other) == m.contains_key(other),
        m.contains_key(other) ==> m.insert(port, v)[other] == m[other],
        !m.remove(port).contains_key(port),
{
}

} // verus!

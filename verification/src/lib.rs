//! Verified core of a small kernel networking stack: socket option and
//! family codes, socket addresses, the TCP listen table, the UDP port map,
//! the socket state machines and the ext4 block-group descriptor.

pub mod error;
pub mod types;
pub mod endpoint;
pub mod text;
pub mod sockaddr;
pub mod listen_table;
pub mod port_map;
pub mod smol;
pub mod tcp;
pub mod udp;
pub mod ext4;
pub mod path;
pub mod processor;
pub mod netdevice;
pub mod socket;
pub mod snoop;
pub mod poll;
pub mod iface;

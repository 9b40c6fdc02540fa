//! Spotting the first packet of an incoming TCP connection (a SYN without
//! ACK) in a received frame, so that the listen table can queue a socket
//! for it before the interface processes the frame.
use vstd::prelude::*;
use smoltcp::wire::{EthernetFrame, Ipv4Packet, TcpPacket};
use crate::endpoint::{IpAddress, IpEndpoint};
use crate::listen_table::{ListenTable, after_incoming, queues_request};
use crate::endpoint::IpListenEndpoint;

verus! {

/// A frame or packet too short or inconsistent to parse.
#[derive(Debug, Clone, Copy, PartialEq, Eq, Structural)]
pub struct WireError;

/// The IP protocol number of TCP.
pub const IP_PROTOCOL_TCP: u8 = 6;

/// The length of an Ethernet header.
pub const ETHERNET_HEADER_LEN: usize = 14;

/// The big-endian 16-bit number at `off`.
pub open spec fn be16_at(b: Seq<u8>, off: int) -> int {
    b[off] * 256 + b[off + 1]
}

/// What `Ipv4Packet::new_checked` accepts, and what its accessors read: a
/// packet of at least 20 bytes whose header length (the low nibble of byte
/// 0, in words of 4 bytes) and total length (bytes 2 and 3) fit the bytes
/// and each other; then the protocol number (byte 9), the source and
/// destination addresses (bytes 12 to 19) and the payload, from the end of
/// the header to the total length.
pub open spec fn ipv4_packet_parts(b: Seq<u8>) -> Option<(u8, [u8; 4], [u8; 4], Seq<u8>)> {
    if b.len() < 20 {
        None
    } else {
        let header_len = (b[0] % 16) * 4;
        let total_len = be16_at(b, 2);
        if b.len() < header_len || header_len > total_len || b.len() < total_len {
            None
        } else {
            Some(
                (
                    b[9],
                    [b[12], b[13], b[14], b[15]],
                    [b[16], b[17], b[18], b[19]],
                    b.subrange(header_len as int, total_len),
                ),
            )
        }
    }
}

/// What `TcpPacket::new_checked` accepts, and what its accessors read: a
/// segment of at least 20 bytes whose header length (the high nibble of
/// byte 12, in words of 4 bytes) is at least 20 and fits the bytes; then
/// the source and destination ports (bytes 0 to 3) and the SYN and ACK
/// flags (bits 1 and 4 of byte 13).
pub open spec fn tcp_packet_parts(b: Seq<u8>) -> Option<(u16, u16, bool, bool)> {
    if b.len() < 20 {
        None
    } else {
        let header_len = (b[12] / 16) * 4;
        if b.len() < header_len || header_len < 20 {
            None
        } else {
            Some(
                (
                    be16_at(b, 0) as u16,
                    be16_at(b, 2) as u16,
                    (b[13] / 2) % 2 == 1,
                    (b[13] / 16) % 2 == 1,
                ),
            )
        }
    }
}

/// `EthernetFrame::new_checked` and `payload`: a frame of at least the 14
/// header bytes, and what follows them.
#[verifier::external_body]
pub(crate) fn ethernet_payload(buf: &[u8]) -> (r: Option<&[u8]>)
    ensures
        r is None <==> buf@.len() < ETHERNET_HEADER_LEN,
        r matches Some(p) ==> p@ == buf@.subrange(ETHERNET_HEADER_LEN as int, buf@.len() as int),
{
    EthernetFrame::new_checked(buf).ok().map(|f| f.payload())
}

/// `Ipv4Packet::new_checked` and the accessors of its protocol,
/// addresses and payload, as `ipv4_packet_parts` reads them.
#[verifier::external_body]
pub(crate) fn ipv4_parts(buf: &[u8]) -> (r: Option<(u8, [u8; 4], [u8; 4], &[u8])>)
    ensures
        r is None ==> ipv4_packet_parts(buf@) is None,
        r matches Some((p, s, d, pl)) ==> ipv4_packet_parts(buf@) == Some((p, s, d, pl@)),
{
    let pkt = Ipv4Packet::new_checked(buf).ok()?;
    Some((u8::from(pkt.next_header()), pkt.src_addr().0, pkt.dst_addr().0, pkt.payload()))
}

/// `TcpPacket::new_checked` and the accessors of its ports and SYN and ACK
/// flags, as `tcp_packet_parts` reads them.
#[verifier::external_body]
pub(crate) fn tcp_parts(buf: &[u8]) -> (r: Option<(u16, u16, bool, bool)>)
    ensures
        r == tcp_packet_parts(buf@),
{
    let pkt = TcpPacket::new_checked(buf).ok()?;
    Some((pkt.src_port(), pkt.dst_port(), pkt.syn(), pkt.ack()))
}

/// The IP packet of a received frame: after the Ethernet header on an
/// Ethernet medium, the whole frame otherwise.
pub open spec fn ip_packet_of(buf: Seq<u8>, is_ethernet: bool) -> Option<Seq<u8>> {
    if !is_ethernet {
        Some(buf)
    } else if buf.len() < ETHERNET_HEADER_LEN {
        None
    } else {
        Some(buf.subrange(ETHERNET_HEADER_LEN as int, buf.len() as int))
    }
}

/// The endpoints of the connection that a frame opens: `Ok(Some)` for a
/// TCP segment over IPv4 with SYN set and ACK clear, `Ok(None)` for any
/// other well-formed packet, `Err` for a frame that does not parse.
pub open spec fn first_syn(buf: Seq<u8>, is_ethernet: bool) -> Result<Option<(IpEndpoint, IpEndpoint)>, WireError> {
    match ip_packet_of(buf, is_ethernet) {
        None => Err(WireError),
        Some(ip) => match ipv4_packet_parts(ip) {
            None => Err(WireError),
            Some((proto, src, dst, payload)) => if proto != IP_PROTOCOL_TCP {
                Ok(None)
            } else {
                match tcp_packet_parts(payload) {
                    None => Err(WireError),
                    Some((src_port, dst_port, syn, ack)) => if syn && !ack {
                        Ok(
                            Some(
                                (
                                    IpEndpoint { addr: IpAddress::Ipv4(src), port: src_port },
                                    IpEndpoint { addr: IpAddress::Ipv4(dst), port: dst_port },
                                ),
                            ),
                        )
                    } else {
                        Ok(None)
                    },
                }
            },
        },
    }
}

/// Parses a received frame and finds the endpoints of the connection it
/// opens, if it is the first packet of one.
pub fn find_first_syn(buf: &[u8], is_ethernet: bool) -> (r: Result<Option<(IpEndpoint, IpEndpoint)>, WireError>)
    ensures
        r == first_syn(buf@, is_ethernet),
{
    let ip = if is_ethernet {
        match ethernet_payload(buf) {
            Some(p) => p,
            None => return Err(WireError),
        }
    } else {
        buf
    };
    let (proto, src, dst, payload) = match ipv4_parts(ip) {
        Some(parts) => parts,
        None => return Err(WireError),
    };
    if proto != IP_PROTOCOL_TCP {
        return Ok(None);
    }
    let (src_port, dst_port, syn, ack) = match tcp_parts(payload) {
        Some(parts) => parts,
        None => return Err(WireError),
    };
    if syn && !ack {
        Ok(
            Some(
                (
                    IpEndpoint::new(IpAddress::Ipv4(src), src_port),
                    IpEndpoint::new(IpAddress::Ipv4(dst), dst_port),
                ),
            ),
        )
    } else {
        Ok(None)
    }
}

/// Looks into a received frame before the interface processes it: where it
/// is the first packet of a TCP connection, the listen table is told, and
/// queues a socket made by `make_socket` where the destination port is
/// listened on, on an address that accepts it, and its queue is not over
/// the limit.
pub fn snoop_tcp_packet<H: Copy, F: FnOnce(IpListenEndpoint) -> Option<H>>(
    buf: &[u8],
    table: &mut ListenTable<H>,
    is_ethernet: bool,
    make_socket: F,
) -> (r: Result<(), WireError>)
    requires
        old(table).wf(),
        forall|e: IpListenEndpoint| make_socket.requires((e,)),
    ensures
        final(table).wf(),
        first_syn(buf@, is_ethernet) is Err ==> r == Err::<(), WireError>(WireError) && final(table)@ == old(table)@,
        first_syn(buf@, is_ethernet) matches Ok(None) ==> r is Ok && final(table)@ == old(table)@,
        first_syn(buf@, is_ethernet) matches Ok(Some((src, dst))) ==> r is Ok && (!queues_request(
            old(table)@,
            dst,
        ) ==> final(table)@ == old(table)@) && (queues_request(old(table)@, dst) ==> exists|made: Option<H>|
            #[trigger] make_socket.ensures((old(table)@[dst.port as int]->Some_0.0,), made)
                && final(table)@ == after_incoming(old(table)@, dst.port, made)),
{
    match find_first_syn(buf, is_ethernet) {
        Err(e) => Err(e),
        Ok(None) => Ok(()),
        Ok(Some((src_addr, dst_addr))) => {
            table.incoming_tcp_packet(src_addr, dst_addr, make_socket);
            Ok(())
        },
    }
}

} // verus!

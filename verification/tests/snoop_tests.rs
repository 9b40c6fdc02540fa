use rros_net::endpoint::{IpAddress, IpEndpoint, IpListenEndpoint};
use rros_net::listen_table::ListenTable;
use rros_net::snoop::{find_first_syn, snoop_tcp_packet, WireError};

const SYN: u8 = 0x02;
const ACK: u8 = 0x10;

fn ip_packet(proto: u8, src: [u8; 4], dst: [u8; 4], payload: &[u8]) -> Vec<u8> {
    let total = 20 + payload.len();
    let mut p = vec![0u8; 20];
    p[0] = 0x45;
    p[2..4].copy_from_slice(&(total as u16).to_be_bytes());
    p[8] = 64;
    p[9] = proto;
    p[12..16].copy_from_slice(&src);
    p[16..20].copy_from_slice(&dst);
    p.extend_from_slice(payload);
    p
}

fn tcp_segment(src_port: u16, dst_port: u16, flags: u8) -> Vec<u8> {
    let mut t = vec![0u8; 20];
    t[0..2].copy_from_slice(&src_port.to_be_bytes());
    t[2..4].copy_from_slice(&dst_port.to_be_bytes());
    t[12] = 0x50;
    t[13] = flags;
    t[14..16].copy_from_slice(&1024u16.to_be_bytes());
    t
}

fn ethernet(payload: &[u8]) -> Vec<u8> {
    let mut f = vec![0x52, 0x54, 0, 0x12, 0x34, 0x56, 0x52, 0x54, 0, 0x12, 0x34, 0x57, 0x08, 0x00];
    f.extend_from_slice(payload);
    f
}

fn syn_frame(flags: u8) -> Vec<u8> {
    ethernet(&ip_packet(6, [10, 0, 2, 2], [10, 0, 2, 15], &tcp_segment(40000, 80, flags)))
}

fn src() -> IpEndpoint {
    IpEndpoint { addr: IpAddress::Ipv4([10, 0, 2, 2]), port: 40000 }
}

fn dst() -> IpEndpoint {
    IpEndpoint { addr: IpAddress::Ipv4([10, 0, 2, 15]), port: 80 }
}

#[test]
fn first_syn_in_ethernet_frame() {
    assert_eq!(find_first_syn(&syn_frame(SYN), true), Ok(Some((src(), dst()))));
}

#[test]
fn first_syn_in_bare_ip_packet() {
    let p = ip_packet(6, [10, 0, 2, 2], [10, 0, 2, 15], &tcp_segment(40000, 80, SYN));
    assert_eq!(find_first_syn(&p, false), Ok(Some((src(), dst()))));
    // read as an Ethernet frame, the same bytes are another packet
    assert_ne!(find_first_syn(&p, true), Ok(Some((src(), dst()))));
}

#[test]
fn other_segments_open_nothing() {
    assert_eq!(find_first_syn(&syn_frame(SYN | ACK), true), Ok(None));
    assert_eq!(find_first_syn(&syn_frame(ACK), true), Ok(None));
    assert_eq!(find_first_syn(&syn_frame(0), true), Ok(None));
    // UDP is not looked into
    let udp = ethernet(&ip_packet(17, [10, 0, 2, 2], [10, 0, 2, 15], &[0u8; 8]));
    assert_eq!(find_first_syn(&udp, true), Ok(None));
}

#[test]
fn malformed_frames_are_errors() {
    assert_eq!(find_first_syn(&[0u8; 10], true), Err(WireError));
    assert_eq!(find_first_syn(&[0u8; 14], true), Err(WireError));
    let mut short_ip = ip_packet(6, [10, 0, 2, 2], [10, 0, 2, 15], &tcp_segment(40000, 80, SYN));
    short_ip.truncate(30);
    assert_eq!(find_first_syn(&ethernet(&short_ip), true), Err(WireError));
    let short_tcp = ip_packet(6, [10, 0, 2, 2], [10, 0, 2, 15], &[0u8; 10]);
    assert_eq!(find_first_syn(&ethernet(&short_tcp), true), Err(WireError));
}

#[test]
fn snooped_syn_queues_a_socket_on_listened_port() {
    let mut table: ListenTable<u32> = ListenTable::new();
    let listen = IpListenEndpoint { addr: Some(IpAddress::Ipv4([10, 0, 2, 15])), port: 80 };
    table.listen(listen).unwrap();
    let mut seen = None;
    assert_eq!(
        snoop_tcp_packet(&syn_frame(SYN), &mut table, true, |l| {
            seen = Some(l);
            Some(21u32)
        }),
        Ok(())
    );
    assert_eq!(seen, Some(listen));
    assert_eq!(snoop_tcp_packet(&syn_frame(SYN | ACK), &mut table, true, |_l| Some(22u32)), Ok(()));
    let q: Vec<u32> = table.unlisten(80).into_iter().collect();
    assert_eq!(q, vec![21]);
}

#[test]
fn snooped_garbage_changes_nothing() {
    let mut table: ListenTable<u32> = ListenTable::new();
    table.listen(IpListenEndpoint { addr: None, port: 80 }).unwrap();
    assert_eq!(snoop_tcp_packet(&[1u8, 2, 3], &mut table, true, |_l| Some(1u32)), Err(WireError));
    assert!(table.unlisten(80).is_empty());
}

#[test]
fn snooped_syn_for_listener_without_address_is_dropped() {
    let mut table: ListenTable<u32> = ListenTable::new();
    table.listen(IpListenEndpoint { addr: None, port: 80 }).unwrap();
    let mut called = false;
    assert_eq!(
        snoop_tcp_packet(&syn_frame(SYN), &mut table, true, |_l| {
            called = true;
            Some(23u32)
        }),
        Ok(())
    );
    assert!(!called);
    assert!(table.unlisten(80).is_empty());
}

use rros_net::endpoint::{IpAddress, IpListenEndpoint};
use rros_net::port_map::PortMap;

fn le(port: u16) -> IpListenEndpoint {
    IpListenEndpoint { addr: Some(IpAddress::Ipv4([0, 0, 0, 0])), port }
}

#[test]
fn empty_map_holds_no_port() {
    let m = PortMap::new();
    assert_eq!(m.get(53), None);
    assert_eq!(m.get(0), None);
}

#[test]
fn insert_then_get_and_remove() {
    let mut m = PortMap::new();
    m.insert(53, 3, le(53));
    m.insert(67, 4, le(67));
    assert_eq!(m.get(53), Some((3, le(53))));
    assert_eq!(m.get(67), Some((4, le(67))));
    assert_eq!(m.get(68), None);
    // a second insert for a port replaces the first
    m.insert(53, 9, le(53));
    assert_eq!(m.get(53), Some((9, le(53))));
    m.remove(53);
    assert_eq!(m.get(53), None);
    assert_eq!(m.get(67), Some((4, le(67))));
    // removing a free port changes nothing
    m.remove(1000);
    assert_eq!(m.get(67), Some((4, le(67))));
}

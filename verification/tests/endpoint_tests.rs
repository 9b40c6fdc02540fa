use rros_net::endpoint::{
    bytes_equal, ipv6_is_ipv4_mapped, local_ipv4, local_ipv4_endpoint, to_ipendpoint, unspecified_ipv4,
    unspecified_ipv4_endpoint, unspecified_ipv6, unspecified_ipv6_endpoint, unspecified_listen_endpoint,
    IpAddress, IpEndpoint, IpListenEndpoint,
};

fn v6(groups: [u16; 8]) -> IpAddress {
    let mut b = [0u8; 16];
    for (i, g) in groups.iter().enumerate() {
        b[2 * i] = (g >> 8) as u8;
        b[2 * i + 1] = (g & 0xff) as u8;
    }
    IpAddress::Ipv6(b)
}

#[test]
fn constants() {
    assert_eq!(unspecified_ipv4(), IpAddress::Ipv4([0, 0, 0, 0]));
    assert_eq!(unspecified_ipv6(), IpAddress::Ipv6([0; 16]));
    assert_eq!(local_ipv4(), IpAddress::Ipv4([127, 0, 0, 0]));
    assert_eq!(unspecified_ipv4_endpoint(), IpEndpoint { addr: IpAddress::Ipv4([0; 4]), port: 0 });
    assert_eq!(unspecified_ipv6_endpoint(), IpEndpoint { addr: IpAddress::Ipv6([0; 16]), port: 0 });
    assert_eq!(local_ipv4_endpoint(), IpEndpoint { addr: IpAddress::Ipv4([127, 0, 0, 0]), port: 0 });
    assert_eq!(unspecified_listen_endpoint(), IpListenEndpoint { addr: None, port: 0 });
}

#[test]
fn unspecified_addresses() {
    assert!(IpAddress::Ipv4([0, 0, 0, 0]).is_unspecified());
    // the whole 0.0.0.0/8 range is unspecified
    assert!(IpAddress::Ipv4([0, 1, 2, 3]).is_unspecified());
    assert!(!IpAddress::Ipv4([127, 0, 0, 1]).is_unspecified());
    assert!(IpAddress::Ipv6([0; 16]).is_unspecified());
    assert!(!v6([0, 0, 0, 0, 0, 0, 0, 1]).is_unspecified());
    assert!(!v6([0x8000, 0, 0, 0, 0, 0, 0, 0]).is_unspecified());
}

#[test]
fn equality_of_addresses_and_endpoints() {
    let a = IpAddress::Ipv4([10, 0, 2, 15]);
    let b = IpAddress::Ipv4([10, 0, 2, 16]);
    assert!(a.equals(&a));
    assert!(!a.equals(&b));
    assert!(!IpAddress::Ipv4([0; 4]).equals(&IpAddress::Ipv6([0; 16])));
    let e = IpEndpoint::new(a, 80);
    assert_eq!(e, IpEndpoint { addr: a, port: 80 });
    assert!(e.equals(&IpEndpoint::new(a, 80)));
    assert!(!e.equals(&IpEndpoint::new(a, 81)));
    assert!(!e.equals(&IpEndpoint::new(b, 80)));
    let l1 = IpListenEndpoint { addr: None, port: 80 };
    let l2 = IpListenEndpoint { addr: Some(a), port: 80 };
    assert!(l1.equals(&l1));
    assert!(l2.equals(&l2));
    assert!(!l1.equals(&l2));
    assert!(!l2.equals(&IpListenEndpoint { addr: Some(b), port: 80 }));
    assert!(!l1.equals(&IpListenEndpoint { addr: None, port: 8080 }));
    assert!(bytes_equal(&[1u8, 2, 3], &[1u8, 2, 3]));
    assert!(!bytes_equal(&[1u8, 2, 3], &[1u8, 2, 4]));
}

#[test]
fn ipv4_mapped_addresses() {
    let mut m = [0u8; 16];
    m[10] = 0xff;
    m[11] = 0xff;
    m[12] = 192;
    m[13] = 168;
    m[14] = 1;
    m[15] = 1;
    assert!(ipv6_is_ipv4_mapped(&m));
    let mut not_mapped = m;
    not_mapped[11] = 0xfe;
    assert!(!ipv6_is_ipv4_mapped(&not_mapped));
    let mut prefix_set = m;
    prefix_set[0] = 0x20;
    assert!(!ipv6_is_ipv4_mapped(&prefix_set));
    assert!(!ipv6_is_ipv4_mapped(&[0u8; 16]));
}

#[test]
fn listen_endpoint_to_endpoint() {
    let a = IpAddress::Ipv4([192, 168, 0, 1]);
    let e = to_ipendpoint(IpListenEndpoint { addr: Some(a), port: 5555 });
    assert_eq!(e, IpEndpoint { addr: a, port: 5555 });
}

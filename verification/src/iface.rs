//! The addresses that the network interface is set up with.
use vstd::prelude::*;
use crate::endpoint::IpAddress;

verus! {

/// The prefix length of the second address of a card that is not a
/// loopback device.
pub const IP_PREFIX: u8 = 24;

/// The addresses (address and prefix length) of the interface: `127.0.0.1/8`
/// on a loopback device; otherwise the configured address `configured/8`,
/// then `10.0.0.1/24`.
pub open spec fn interface_addresses_spec(is_loopback: bool, configured: IpAddress) -> Seq<(IpAddress, u8)> {
    if is_loopback {
        seq![(IpAddress::Ipv4([127u8, 0u8, 0u8, 1u8]), 8u8)]
    } else {
        seq![(configured, 8u8), (IpAddress::Ipv4([10u8, 0u8, 0u8, 1u8]), IP_PREFIX)]
    }
}

/// The addresses (address and prefix length) that the interface is set up
/// with.
pub fn interface_addresses(is_loopback: bool, configured: IpAddress) -> (r: Vec<(IpAddress, u8)>)
    ensures
        r@ == interface_addresses_spec(is_loopback, configured),
{
    let mut v: Vec<(IpAddress, u8)> = Vec::new();
    if is_loopback {
        v.push((IpAddress::Ipv4([127u8, 0u8, 0u8, 1u8]), 8u8));
    } else {
        v.push((configured, 8u8));
        v.push((IpAddress::Ipv4([10u8, 0u8, 0u8, 1u8]), IP_PREFIX));
    }
    assert(v@ =~= interface_addresses_spec(is_loopback, configured));
    v
}

/// The address that the text `text` denotes, as smoltcp reads it (an IPv4
/// address in dotted decimal, or an IPv6 address); none where it denotes
/// no address.
pub uninterp spec fn parsed_address(text: Seq<char>) -> Option<IpAddress>;

/// `smoltcp::wire::IpAddress::from_str`: the address that `text` denotes.
#[verifier::external_body]
fn parse_address(text: &str) -> (r: Option<IpAddress>)
    ensures
        r == parsed_address(text@),
{
    match text.parse::<smoltcp::wire::IpAddress>() {
        Ok(smoltcp::wire::IpAddress::Ipv4(a)) => Some(IpAddress::Ipv4(a.0)),
        Ok(smoltcp::wire::IpAddress::Ipv6(a)) => Some(IpAddress::Ipv6(a.0)),
        Err(_) => None,
    }
}

/// The gateway and the addresses of the interface, from the texts of the
/// configured address and gateway: none where the gateway, or (on a card
/// that is not a loopback device, which alone uses it) the address, is not
/// an address.
pub open spec fn network_config_spec(is_loopback: bool, ip: Seq<char>, gateway: Seq<char>) -> Option<(IpAddress, Seq<(IpAddress, u8)>)> {
    match parsed_address(gateway) {
        None => None,
        Some(gw) => if is_loopback {
            Some((gw, interface_addresses_spec(true, gw)))
        } else {
            match parsed_address(ip) {
                None => None,
                Some(a) => Some((gw, interface_addresses_spec(false, a))),
            }
        },
    }
}

/// The gateway and the addresses (address and prefix length) that the
/// interface is set up with, read from the texts of the configured address
/// and gateway.
pub fn network_config(is_loopback: bool, ip: &str, gateway: &str) -> (r: Option<(IpAddress, Vec<(IpAddress, u8)>)>)
    ensures
        match r {
            Some((gw, addrs)) => network_config_spec(is_loopback, ip@, gateway@) == Some((gw, addrs@)),
            None => network_config_spec(is_loopback, ip@, gateway@) is None,
        },
{
    let gw = match parse_address(gateway) {
        Some(g) => g,
        None => return None,
    };
    if is_loopback {
        return Some((gw, interface_addresses(true, gw)));
    }
    match parse_address(ip) {
        Some(a) => Some((gw, interface_addresses(false, a))),
        None => None,
    }
}

} // verus!

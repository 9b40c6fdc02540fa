use rros_net::endpoint::IpAddress;
use rros_net::error::SysError;
use rros_net::iface::{interface_addresses, IP_PREFIX};
use rros_net::smol::{TcpConnectError, UdpSendError};
use rros_net::tcp::{connect_refusal, recv_result, send_result, RecvStep, SendStep};
use rros_net::udp::{poll_state, recv_outcome, send_outcome, NetPollState};

#[test]
fn connect_refusals() {
    assert_eq!(connect_refusal(TcpConnectError::InvalidState), SysError::EBADF);
    assert_eq!(connect_refusal(TcpConnectError::Unaddressable), SysError::EADDRNOTAVAIL);
}

#[test]
fn tcp_send_results() {
    assert_eq!(send_result(SendStep::NotConnected, Err(())), Err(SysError::ENOTCONN));
    assert_eq!(send_result(SendStep::Wait, Err(())), Err(SysError::EAGAIN));
    assert_eq!(send_result(SendStep::Send, Ok(7)), Ok(7));
    assert_eq!(send_result(SendStep::Send, Err(())), Err(SysError::EAGAIN));
}

#[test]
fn tcp_recv_results() {
    assert_eq!(recv_result(RecvStep::NotConnected, Err(())), Err(SysError::ENOTCONN));
    assert_eq!(recv_result(RecvStep::Wait, Err(())), Err(SysError::EAGAIN));
    assert_eq!(recv_result(RecvStep::Recv, Ok(3)), Ok(3));
    assert_eq!(recv_result(RecvStep::Recv, Err(())), Err(SysError::EAGAIN));
}

#[test]
fn udp_send_outcomes() {
    assert_eq!(send_outcome(None, 9), (Err(SysError::EAGAIN), true));
    assert_eq!(send_outcome(Some(Ok(())), 9), (Ok(9), false));
    assert_eq!(send_outcome(Some(Err(UdpSendError::BufferFull)), 9), (Ok(9), true));
    assert_eq!(send_outcome(Some(Err(UdpSendError::Unaddressable)), 9), (Ok(9), false));
}

#[test]
fn udp_recv_outcomes() {
    assert_eq!(recv_outcome(Ok(2), 8), (Ok(8), false));
    assert_eq!(recv_outcome(Err(()), 8), (Err(SysError::EAGAIN), true));
}

#[test]
fn udp_poll_states() {
    assert_eq!(poll_state(true, true), (NetPollState { recvable: true, sendable: true, hangup: false }, false, false));
    assert_eq!(poll_state(false, true), (NetPollState { recvable: false, sendable: true, hangup: false }, true, false));
    assert_eq!(poll_state(true, false), (NetPollState { recvable: true, sendable: false, hangup: false }, false, true));
}

#[test]
fn interface_address_lists() {
    assert_eq!(interface_addresses(true, IpAddress::Ipv4([0; 4])), vec![(IpAddress::Ipv4([127, 0, 0, 1]), 8)]);
    let c = IpAddress::Ipv4([192, 168, 1, 5]);
    assert_eq!(interface_addresses(false, c), vec![(c, 8), (IpAddress::Ipv4([10, 0, 0, 1]), IP_PREFIX)]);
}

use uip::address::{Ipv4Address, SocketAddress, SocketAddressV4};
use uip::io::{
    datagram_outcome, debounce_passes, network_change_groups, ConnectionAddressError, ConnectionEnds,
    DatagramOutcome, DatagramRouter,
};

fn a(port: u16) -> SocketAddress {
    SocketAddress::V4(SocketAddressV4 { ip: Ipv4Address(0x7f000001), port })
}

#[test]
fn datagram_outcomes() {
    assert_eq!(datagram_outcome(true, false), DatagramOutcome::Dropped);
    assert_eq!(datagram_outcome(false, false), DatagramOutcome::Dropped);
    assert_eq!(datagram_outcome(true, true), DatagramOutcome::Forwarded { announce: false });
    assert_eq!(datagram_outcome(false, true), DatagramOutcome::Forwarded { announce: true });
}

#[test]
fn connection_only_talks_to_its_remote() {
    let ends = ConnectionEnds { local: a(1), remote: a(2) };
    assert_eq!(ends.check_connect(a(2)), Ok(()));
    assert_eq!(ends.check_connect(a(3)), Err(ConnectionAddressError::CantAssignRequestedAddress));
    assert_eq!(ends.check_send_to(a(2)), Ok(()));
    assert_eq!(ends.check_send_to(a(1)), Err(ConnectionAddressError::CantAssignRequestedAddress));
}

#[test]
fn change_listening() {
    assert_eq!(network_change_groups(), 0x440);
    assert!(debounce_passes(2_000_000_001, 2_000_000_000));
    assert!(!debounce_passes(2_000_000_000, 2_000_000_000));
}

#[test]
fn datagrams_go_to_their_remote_connection() {
    let mut router: DatagramRouter<u32> = DatagramRouter::new();
    assert_eq!(router.destination(&a(1)), None);
    assert_eq!(router.record_datagram(a(1), 10, false, true), DatagramOutcome::Forwarded { announce: true });
    assert_eq!(router.destination(&a(1)), Some(&10));
    assert_eq!(router.destination(&a(2)), None);
    assert_eq!(router.record_datagram(a(2), 20, false, false), DatagramOutcome::Dropped);
    assert_eq!(router.destination(&a(2)), None);
    assert_eq!(router.record_datagram(a(1), 10, true, true), DatagramOutcome::Forwarded { announce: false });
    router.connect(a(3), 30);
    assert_eq!(router.destination(&a(3)), Some(&30));
    assert_eq!(router.destination(&a(1)), Some(&10));
    assert_eq!(router.connections.len(), 2);
}

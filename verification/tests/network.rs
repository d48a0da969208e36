use uip::address::{InterfaceName, Ipv6Address, LocalAddress, SocketAddress, SocketAddressV6};
use std::sync::OnceLock;
use uip::identifier::Identifier;
use uip::identity::Identity;
use uip::network::{route_frame, ConnectionPlan, ControlAction, FrameRoute, NetworkError, NetworkState};
use uip::peer::{Peer, PeerInformationBase};
use uip::protocol::Message;

fn id(n: u8) -> Identifier {
    Identifier::copy_from_slice(&[n; 32]).unwrap()
}

fn v6(ip: u128, port: u16) -> SocketAddressV6 {
    SocketAddressV6 { ip: Ipv6Address(ip), port, flowinfo: 0, scope_id: 0 }
}

const GLOBAL_A: u128 = 0x2a00_0000_0000_0000_0000_0000_0000_000a;
const GLOBAL_B: u128 = 0x2a00_0000_0000_0000_0000_0000_0000_000b;

fn local(ip: u128, port: u16) -> LocalAddress {
    LocalAddress { interface: InterfaceName::copy_from_slice(b"eth0"), address: v6(ip, port) }
}

fn identity() -> Identity {
    static KEY: OnceLock<Identity> = OnceLock::new();
    let base = KEY.get_or_init(|| Identity::generate().unwrap());
    let mut copy = base.try_clone().unwrap();
    copy.identifier = id(1);
    copy
}

fn state() -> NetworkState {
    let mut pib = PeerInformationBase::new();
    pib.add_peer(id(2), Peer::new(id(2), vec![v6(GLOBAL_B, 9)], vec![id(3)]));
    pib.add_peer(id(3), Peer::new(id(3), vec![v6(GLOBAL_A, 7)], vec![]));
    NetworkState::new(identity(), pib, vec![id(3), id(4)], 0xfe11)
}

#[test]
fn control_frames_are_between_ports_zero() {
    assert_eq!(route_frame(0, 0), FrameRoute::Control);
    assert_eq!(route_frame(0, 1), FrameRoute::Upstream);
    assert_eq!(route_frame(5, 0), FrameRoute::Upstream);
}

#[test]
fn peer_info_about_sender_is_recorded() {
    let mut s = state();
    let info = Message::peer_info(Peer::new(id(5), vec![v6(GLOBAL_A, 1)], vec![]));
    assert!(matches!(s.process_control_message(id(5), info), ControlAction::PeerRecorded));
    assert_eq!(s.pib.lookup_peer_address(&id(5)), Some(v6(GLOBAL_A, 1)));
}

#[test]
fn peer_info_about_another_peer_is_ignored() {
    let mut s = state();
    let info = Message::peer_info(Peer::new(id(5), vec![v6(GLOBAL_A, 1)], vec![]));
    assert!(matches!(s.process_control_message(id(6), info), ControlAction::PeerMismatch));
    assert!(s.pib.get_peer(&id(5)).is_none());
}

#[test]
fn peer_info_request_is_answered_when_known() {
    let mut s = state();
    match s.process_control_message(id(7), Message::peer_info_request(id(2))) {
        ControlAction::SendPeerInfo(to, peer) => {
            assert_eq!(to, id(7));
            assert_eq!(peer.id, id(2));
            assert_eq!(peer.addresses, vec![v6(GLOBAL_B, 9)]);
        }
        _ => panic!("expected an answer"),
    }
    assert!(matches!(
        s.process_control_message(id(7), Message::peer_info_request(id(8))),
        ControlAction::UnknownPeer
    ));
    assert!(matches!(
        s.process_control_message(id(7), Message::from_decoded(None, &[1, 2])),
        ControlAction::InvalidMessage
    ));
}

#[test]
fn request_after_info_returns_that_info() {
    let mut s = state();
    let info = Message::peer_info(Peer::new(id(5), vec![v6(GLOBAL_A, 4)], vec![id(3)]));
    assert!(matches!(s.process_control_message(id(5), info), ControlAction::PeerRecorded));
    match s.process_control_message(id(9), Message::peer_info_request(id(5))) {
        ControlAction::SendPeerInfo(to, peer) => {
            assert_eq!(to, id(9));
            assert_eq!(peer.id, id(5));
            assert_eq!(peer.addresses, vec![v6(GLOBAL_A, 4)]);
            assert_eq!(peer.relays, vec![id(3)]);
        }
        _ => panic!("expected an answer"),
    }
}

#[test]
fn peer_info_relay_is_first_relay() {
    let s = state();
    assert_eq!(s.peer_info_relay(&id(2)), Some(id(3)));
    assert_eq!(s.peer_info_relay(&id(3)), None);
    assert_eq!(s.peer_info_relay(&id(9)), None);
}

#[test]
fn new_and_stale_addresses() {
    let mut s = state();
    let discovered = vec![local(GLOBAL_A, 0), local(0xfe80_0000_0000_0000_0000_0000_0000_0001, 0)];
    let new = s.new_addresses(&discovered);
    assert_eq!(new.len(), 1);
    assert_eq!(new[0].address, v6(GLOBAL_A, 0xfe11));
    s.add_socket(new[0]);
    assert_eq!(s.socket_count(), 1);
    assert!(s.new_addresses(&discovered).is_empty());
    assert!(s.stale_addresses(&discovered).is_empty());
    let moved = vec![local(GLOBAL_B, 0)];
    assert_eq!(s.stale_addresses(&moved), vec![SocketAddress::V6(v6(GLOBAL_A, 0xfe11))]);
    assert!(s.remove_socket(&SocketAddress::V6(v6(GLOBAL_A, 0xfe11))));
    assert!(!s.remove_socket(&SocketAddress::V6(v6(GLOBAL_A, 0xfe11))));
    assert_eq!(s.socket_count(), 0);
}

#[test]
fn relays_to_connect_skip_connected_and_unknown() {
    let mut s = state();
    s.add_socket(local(GLOBAL_A, 0xfe11));
    assert_eq!(s.relays_to_connect(0), vec![(id(3), v6(GLOBAL_A, 7))]);
    s.record_connection(0, id(3));
    assert!(s.relays_to_connect(0).is_empty());
    s.add_relay(id(2));
    assert_eq!(s.relays_to_connect(0), vec![(id(2), v6(GLOBAL_B, 9))]);
}

#[test]
fn connection_plan_prefers_existing_connection() {
    let mut s = state();
    assert_eq!(s.connection_plan(&id(2)), Err(NetworkError::NoSocketOpen));
    assert_eq!(s.connection_plan(&id(9)), Err(NetworkError::PeerAddressNotFound));
    s.add_socket(local(GLOBAL_A, 0xfe11));
    s.add_socket(local(GLOBAL_B, 0xfe11));
    assert_eq!(s.connection_plan(&id(2)), Ok(ConnectionPlan::Open(0, v6(GLOBAL_B, 9))));
    s.record_connection(1, id(2));
    assert_eq!(s.connection_plan(&id(2)), Ok(ConnectionPlan::Existing(1)));
    assert_eq!(s.find_connection(&id(2)), Some(1));
    assert_eq!(s.find_connection(&id(3)), None);
}

#[test]
fn my_peer_information_lists_public_addresses_and_relays() {
    let mut s = state();
    s.add_socket(local(GLOBAL_A, 0xfe11));
    s.add_socket(local(GLOBAL_B, 0xfe11));
    s.set_public_address(1, Some(v6(GLOBAL_B, 1234)));
    let me = s.my_peer_information();
    assert_eq!(me.id, id(1));
    assert_eq!(me.addresses, vec![v6(GLOBAL_B, 1234)]);
    assert_eq!(me.relays, vec![id(3), id(4)]);
    assert_eq!(s.external_addresses(), vec![v6(GLOBAL_B, 1234)]);
}

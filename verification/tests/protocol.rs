use uip::identifier::Identifier;
use uip::peer::Peer;
use uip::protocol::{Message, PeerInfo};

#[test]
fn undecodable_buffer_becomes_invalid_message() {
    match Message::from_decoded(None, &[0xc1, 0x00]) {
        Message::Invalid(bytes) => assert_eq!(bytes, vec![0xc1, 0x00]),
        _ => panic!("expected an invalid message"),
    }
    let id = Identifier::copy_from_slice(&[4u8; 32]).unwrap();
    match Message::from_decoded(Some(Message::peer_info_request(id)), &[1]) {
        Message::PeerInfoRequest(got) => assert_eq!(got, id),
        _ => panic!("expected the decoded message"),
    }
}

#[test]
fn peer_info_message_and_default() {
    let id = Identifier::copy_from_slice(&[4u8; 32]).unwrap();
    match Message::peer_info(Peer::new(id, vec![], vec![id])) {
        Message::PeerInfo(PeerInfo { peer }) => assert_eq!(peer.relays, vec![id]),
        _ => panic!("expected peer information"),
    }
    assert!(PeerInfo::default().peer.id.is_empty());
}

use uip::address::{Ipv6Address, SocketAddressV6};
use uip::identifier::Identifier;
use uip::peer::{Peer, PeerInformationBase};

fn id(n: u8) -> Identifier {
    Identifier::copy_from_slice(&[n; 32]).unwrap()
}

fn addr(port: u16) -> SocketAddressV6 {
    SocketAddressV6 { ip: Ipv6Address(0x2a00_0000_0000_0000_0000_0000_0000_0001), port, flowinfo: 0, scope_id: 0 }
}

#[test]
fn empty_base_knows_nothing() {
    let pib = PeerInformationBase::new();
    assert_eq!(pib.len(), 0);
    assert!(pib.get_peer(&id(1)).is_none());
    assert!(pib.lookup_peer_address(&id(1)).is_none());
}

#[test]
fn get_after_add_gives_the_peer() {
    let mut pib = PeerInformationBase::new();
    pib.add_peer(id(1), Peer::new(id(1), vec![addr(5), addr(6)], vec![id(9)]));
    let p = pib.get_peer(&id(1)).unwrap();
    assert_eq!(p.id, id(1));
    assert_eq!(p.addresses, vec![addr(5), addr(6)]);
    assert_eq!(p.relays, vec![id(9)]);
    assert_eq!(pib.lookup_peer_address(&id(1)), Some(addr(5)));
    assert!(pib.get_peer(&id(2)).is_none());
}

#[test]
fn add_peer_replaces_earlier_record() {
    let mut pib = PeerInformationBase::new();
    pib.add_peer(id(1), Peer::new(id(1), vec![addr(5)], vec![]));
    pib.add_peer(id(1), Peer::new(id(1), vec![addr(7)], vec![]));
    assert_eq!(pib.len(), 1);
    assert_eq!(pib.lookup_peer_address(&id(1)), Some(addr(7)));
}

#[test]
fn add_peer_address_creates_unknown_peer() {
    let mut pib = PeerInformationBase::new();
    pib.add_peer_address(id(3), addr(8));
    let p = pib.get_peer(&id(3)).unwrap();
    assert_eq!(p.id, id(3));
    assert_eq!(p.addresses, vec![addr(8)]);
    assert!(p.relays.is_empty());
}

#[test]
fn add_peer_address_appends_and_lookup_keeps_first() {
    let mut pib = PeerInformationBase::new();
    pib.add_peer(id(4), Peer::new(id(4), vec![], vec![id(1)]));
    assert!(pib.lookup_peer_address(&id(4)).is_none());
    pib.add_peer_address(id(4), addr(1));
    pib.add_peer_address(id(4), addr(2));
    assert_eq!(pib.lookup_peer_address(&id(4)), Some(addr(1)));
    assert_eq!(pib.get_peer(&id(4)).unwrap().addresses, vec![addr(1), addr(2)]);
    assert_eq!(pib.get_peer(&id(4)).unwrap().relays, vec![id(1)]);
}

#[test]
fn clone_keeps_every_peer() {
    let mut pib = PeerInformationBase::new();
    pib.add_peer_address(id(1), addr(1));
    pib.add_peer_address(id(2), addr(2));
    let copy = pib.clone();
    assert_eq!(copy.len(), 2);
    assert_eq!(copy.lookup_peer_address(&id(2)), Some(addr(2)));
    let (first, peer) = copy.entry(0);
    assert_eq!(*first, id(1));
    assert_eq!(peer.addresses, vec![addr(1)]);
}

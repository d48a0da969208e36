use uip::address::{Ipv4Address, SocketAddressV4};
use uip::discovery::{
    existing_mapping_port, external_address_from_existing, external_address_from_new_mapping,
    mapping_description, mapping_port, AddressDiscoveryError, EntryAnswer, MappingProtocol,
    MappingScan, PortMappingEntry, ScanStep,
};

fn internal() -> SocketAddressV4 {
    SocketAddressV4 { ip: Ipv4Address(0xc0a8_020f), port: 0xfe11 }
}

fn entry(client: &str, port: u16, protocol: MappingProtocol, enabled: bool, external: u16) -> PortMappingEntry {
    PortMappingEntry {
        internal_client: client.to_string(),
        internal_port: port,
        protocol,
        enabled,
        external_port: external,
    }
}

#[test]
fn matching_entry_gives_external_port() {
    let e = entry("192.168.2.15", 0xfe11, MappingProtocol::Udp, true, 4000);
    assert_eq!(existing_mapping_port(&e, internal()), Some(4000));
}

#[test]
fn non_matching_entries_give_nothing() {
    assert_eq!(existing_mapping_port(&entry("192.168.2.16", 0xfe11, MappingProtocol::Udp, true, 1), internal()), None);
    assert_eq!(existing_mapping_port(&entry("192.168.2.15", 80, MappingProtocol::Udp, true, 1), internal()), None);
    assert_eq!(existing_mapping_port(&entry("192.168.2.15", 0xfe11, MappingProtocol::Tcp, true, 1), internal()), None);
    assert_eq!(existing_mapping_port(&entry("192.168.2.15", 0xfe11, MappingProtocol::Udp, false, 1), internal()), None);
    assert_eq!(existing_mapping_port(&entry("gateway.local", 0xfe11, MappingProtocol::Udp, true, 1), internal()), None);
}

#[test]
fn mapping_port_uses_the_given_client_ip() {
    let e = entry("not an address", 0xfe11, MappingProtocol::Udp, true, 77);
    assert_eq!(mapping_port(Some(Ipv4Address(0xc0a8_020f)), &e, internal()), Some(77));
    assert_eq!(mapping_port(None, &e, internal()), None);
}

#[test]
fn scan_walks_entries_until_found() {
    let (mut scan, first) = MappingScan::new(internal());
    assert_eq!(first, ScanStep::Request(0));
    let step = scan.step(EntryAnswer::Entry(entry("10.0.0.1", 1, MappingProtocol::Udp, true, 5)));
    assert_eq!(step, ScanStep::Request(1));
    let step = scan.step(EntryAnswer::Entry(entry("192.168.2.15", 0xfe11, MappingProtocol::Udp, true, 6000)));
    assert_eq!(step, ScanStep::Found(6000));
    assert_eq!(scan.index, 2);
}

#[test]
fn scan_ends_without_entries() {
    let (mut scan, _) = MappingScan::new(internal());
    assert_eq!(scan.step(EntryAnswer::NoSuchEntry), ScanStep::NotFound);
    let (mut scan, _) = MappingScan::new(internal());
    assert_eq!(scan.step(EntryAnswer::Failed("timeout".to_string())), ScanStep::NotFound);
    assert_eq!(scan.index, 0);
}

#[test]
fn external_addresses_and_errors() {
    let ok = external_address_from_existing(Ok(Ipv4Address(0x01020304)), 7000).unwrap();
    assert_eq!(ok, SocketAddressV4 { ip: Ipv4Address(0x01020304), port: 7000 });
    match external_address_from_existing(Err("no ip".to_string()), 7000) {
        Err(AddressDiscoveryError::IgdError(m)) => {
            assert_eq!(m, "Unable to determine the external IP address: no ip")
        }
        _ => panic!("expected an error"),
    }
    let mapped = SocketAddressV4 { ip: Ipv4Address(5), port: 6 };
    assert_eq!(external_address_from_new_mapping(Ok(mapped)).unwrap(), mapped);
    match external_address_from_new_mapping(Err("refused".to_string())) {
        Err(e) => assert_eq!(e.description(), "Error while setting up port mapping: refused"),
        _ => panic!("expected an error"),
    }
    assert_eq!(mapping_description(), "UIP");
}

#[test]
fn error_messages() {
    assert_eq!(
        AddressDiscoveryError::gateway_search_failed("none").description(),
        "Error while searching internet gateway device: none"
    );
    match AddressDiscoveryError::interfaces_failed("denied") {
        AddressDiscoveryError::InterfacesError(m) => assert_eq!(m, "Error while fetching interfaces: denied"),
        _ => panic!("expected an interfaces error"),
    }
    let e = AddressDiscoveryError::UnsupportedAddress("v6".to_string());
    assert_eq!(e.description(), "v6");
}

fn run_scan(gateway: &[(String, u16, MappingProtocol, bool, u16)]) -> ScanStep {
    let (mut scan, mut step) = MappingScan::new(internal());
    loop {
        let index = match step {
            ScanStep::Request(i) => i as usize,
            done => return done,
        };
        let answer = match gateway.get(index) {
            Some((c, p, proto, en, ext)) => EntryAnswer::Entry(entry(c, *p, *proto, *en, *ext)),
            None => EntryAnswer::NoSuchEntry,
        };
        step = scan.step(answer);
    }
}

#[test]
fn second_search_finds_existing_mapping() {
    let mut gateway = vec![("10.0.0.1".to_string(), 0xfe11, MappingProtocol::Udp, true, 5)];
    assert_eq!(run_scan(&gateway), ScanStep::NotFound);
    gateway.push(("192.168.2.15".to_string(), 0xfe11, MappingProtocol::Udp, true, 7000));
    gateway.push(("192.168.2.15".to_string(), 0xfe11, MappingProtocol::Udp, true, 8000));
    assert_eq!(run_scan(&gateway), ScanStep::Found(7000));
    assert_eq!(run_scan(&gateway), ScanStep::Found(7000));
}

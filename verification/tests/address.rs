use uip::address::{
    discover_addresses, InterfaceInfo, InterfaceName, Ipv4Address, Ipv6Address, LocalAddress,
    SocketAddress, SocketAddressV4, SocketAddressV6,
};

fn v6(ip: u128, port: u16) -> SocketAddressV6 {
    SocketAddressV6 { ip: Ipv6Address(ip), port, flowinfo: 0, scope_id: 0 }
}

#[test]
fn interface_name_is_cut_or_padded() {
    let short = InterfaceName::copy_from_slice(b"eth0");
    let mut expected = [0u8; 16];
    expected[..4].copy_from_slice(b"eth0");
    assert_eq!(short.as_bytes(), &expected);
    let long = InterfaceName::copy_from_slice(b"a-very-long-interface-name");
    assert_eq!(long.as_bytes(), b"a-very-long-inte");
    assert_eq!(InterfaceName::default().as_bytes(), &[0u8; 16]);
    assert!(short == InterfaceName::copy_from_slice(b"eth0"));
}

#[test]
fn local_address_keeps_address() {
    let a = LocalAddress::new(b"wlan0", v6(1, 2));
    assert_eq!(a.address, v6(1, 2));
    assert_eq!(&a.interface.as_bytes()[..5], b"wlan0");
}

#[test]
fn ipv6_global_ranges() {
    assert!(Ipv6Address(0x2a00_1450_4001_0000_0000_0000_0000_200e).is_global());
    assert!(!Ipv6Address(0).is_global());
    assert!(!Ipv6Address(1).is_global());
    assert!(!Ipv6Address(0xfe80_0000_0000_0000_0000_0000_0000_0001).is_global());
    assert!(!Ipv6Address(0xfd00_0000_0000_0000_0000_0000_0000_0001).is_global());
    assert!(!Ipv6Address(0x2001_0db8_0000_0000_0000_0000_0000_0001).is_global());
    assert!(!Ipv6Address(0x0000_0000_0000_0000_0000_ffff_c000_0201).is_global());
    assert!(!Ipv6Address(0x2001_0000_0000_0000_0000_0000_0000_0001).is_global());
    assert!(Ipv6Address(0x2001_0001_0000_0000_0000_0000_0000_0001).is_global());
    assert!(Ipv6Address(0x2001_0004_0112_0000_0000_0000_0000_0001).is_global());
    assert!(!Ipv6Address(0x2002_0000_0000_0000_0000_0000_0000_0001).is_global());
}

#[test]
fn socket_address_version_and_port() {
    let a = SocketAddress::V4(SocketAddressV4 { ip: Ipv4Address(0x7f000001), port: 80 });
    assert!(a.is_ipv4());
    assert_eq!(a.port(), 80);
    let b = SocketAddress::V6(v6(1, 443));
    assert!(!b.is_ipv4());
    assert_eq!(b.port(), 443);
}

#[test]
fn dotted_decimal_parsing() {
    assert_eq!(Ipv4Address::parse_dotted("192.168.2.15"), Some(Ipv4Address(0xc0a8_020f)));
    assert_eq!(Ipv4Address::parse_dotted("0.0.0.0"), Some(Ipv4Address(0)));
    assert_eq!(Ipv4Address::parse_dotted("255.255.255.255"), Some(Ipv4Address(u32::MAX)));
    assert_eq!(Ipv4Address::parse_dotted("256.1.1.1"), None);
    assert_eq!(Ipv4Address::parse_dotted("01.1.1.1"), None);
    assert_eq!(Ipv4Address::parse_dotted("1.1.1"), None);
    assert_eq!(Ipv4Address::parse_dotted("1.1.1.1.1"), None);
    assert_eq!(Ipv4Address::parse_dotted("1..1.1"), None);
    assert_eq!(Ipv4Address::parse_dotted("1.1.1."), None);
    assert_eq!(Ipv4Address::parse_dotted(""), None);
    assert_eq!(Ipv4Address::parse_dotted("a.b.c.d"), None);
}

#[test]
fn discover_keeps_global_ipv6_of_running_non_loopback() {
    let global = v6(0x2a00_0000_0000_0000_0000_0000_0000_0001, 0);
    let global2 = v6(0x2a00_0000_0000_0000_0000_0000_0000_0002, 0);
    let link_local = v6(0xfe80_0000_0000_0000_0000_0000_0000_0001, 0);
    let v4 = SocketAddress::V4(SocketAddressV4 { ip: Ipv4Address(0x0a000001), port: 0 });
    let interfaces = vec![
        InterfaceInfo {
            name: b"lo".to_vec(),
            is_loopback: true,
            is_running: true,
            addresses: vec![Some(SocketAddress::V6(global))],
        },
        InterfaceInfo {
            name: b"eth0".to_vec(),
            is_loopback: false,
            is_running: true,
            addresses: vec![
                Some(v4),
                None,
                Some(SocketAddress::V6(link_local)),
                Some(SocketAddress::V6(global)),
            ],
        },
        InterfaceInfo {
            name: b"eth1".to_vec(),
            is_loopback: false,
            is_running: false,
            addresses: vec![Some(SocketAddress::V6(global2))],
        },
        InterfaceInfo {
            name: b"wlan0".to_vec(),
            is_loopback: false,
            is_running: true,
            addresses: vec![Some(SocketAddress::V6(global2))],
        },
    ];
    let found = discover_addresses(&interfaces);
    assert_eq!(found.len(), 2);
    assert_eq!(found[0].address, global);
    assert_eq!(&found[0].interface.as_bytes()[..4], b"eth0");
    assert_eq!(found[1].address, global2);
    assert_eq!(&found[1].interface.as_bytes()[..5], b"wlan0");
}

#[test]
fn interface_name_text_and_order() {
    let eth = InterfaceName::copy_from_slice(b"eth0");
    assert_eq!(eth.to_text(), format!("eth0{}", "\0".repeat(12)));
    let bad = InterfaceName::copy_from_slice(&[0xff, b'a']);
    assert!(bad.to_text().starts_with("\u{fffd}a"));
    let wlan = InterfaceName::copy_from_slice(b"wlan0");
    assert!(eth < wlan);
    assert_eq!(eth.cmp(&InterfaceName::copy_from_slice(b"eth0")), std::cmp::Ordering::Equal);
}

use uip::config::{Configuration, DEFAULT_PORT};
use uip::identity::{identify_peer, Identity};
use uip::identifier::Identifier;
use uip::network::NetworkState;
use uip::peer::PeerInformationBase;
use uip::unix::UnixState;

#[test]
fn generated_identity_is_digest_of_its_public_key() {
    let identity = Identity::generate().unwrap();
    let der = identity.cert.public_key().unwrap().public_key_to_der().unwrap();
    let expected = openssl::sha::sha256(&der);
    assert_eq!(identity.identifier.as_bytes(), &expected);
    assert_eq!(Identifier::from_public_key_der(&der), identity.identifier);
    assert_eq!(Identifier::from_x509_certificate(&identity.cert).unwrap(), identity.identifier);
    assert_eq!(identify_peer(Some(identity.cert.clone())).unwrap(), identity.identifier);
    let cn = identity.cert.subject_name().entries().next().unwrap().data().as_utf8().unwrap().to_string();
    assert_eq!(cn, identity.identifier.to_hex_string());
    let copy = identity.try_clone().unwrap();
    assert_eq!(copy.identifier, identity.identifier);
    assert_eq!(copy.key.public_key_to_der().unwrap(), der);
    assert_eq!(copy.key.bits(), 2048);
}

#[test]
fn generated_certificate_fields() {
    let identity = Identity::generate().unwrap();
    let key_der = identity.key.public_key_to_der().unwrap();
    assert_eq!(identity.identifier.as_bytes(), &openssl::sha::sha256(&key_der));
    assert_eq!(identity.key.bits(), 2048);
    let cert = &identity.cert;
    assert_eq!(cert.version(), 2);
    assert_eq!(cert.public_key().unwrap().public_key_to_der().unwrap(), key_der);
    let hex = identity.identifier.to_hex_string();
    for name in [cert.subject_name(), cert.issuer_name()] {
        let entries: Vec<_> = name.entries().collect();
        assert_eq!(entries.len(), 1);
        assert_eq!(entries[0].object().nid(), openssl::nid::Nid::COMMONNAME);
        assert_eq!(entries[0].data().as_utf8().unwrap().to_string(), hex);
    }
    assert_eq!(cert.signature_algorithm().object().nid(), openssl::nid::Nid::SHA256WITHRSAENCRYPTION);
    assert!(cert.verify(&identity.key).unwrap());
    let days = cert.not_before().diff(cert.not_after()).unwrap().days;
    assert_eq!(days, 712);
}

#[test]
fn digest_of_known_bytes() {
    let id = Identifier::from_public_key_der(b"abc");
    assert_eq!(
        id.to_hex_string(),
        "BA7816BF8F01CFEA414140DE5DAE2223B00361A396177A9CB410FF61F20015AD"
    );
}

#[test]
fn missing_certificate_is_refused() {
    assert_eq!(identify_peer(None).unwrap_err(), "Client did not provide a certificate");
}

#[test]
fn configuration_round_trip_through_state() {
    let identity = Identity::generate().unwrap();
    let config = Configuration::generate(identity);
    assert_eq!(config.port, 0);
    assert_eq!(config.effective_port(), DEFAULT_PORT);
    assert_eq!(
        config.ctl_socket,
        format!("/run/user/1000/{}.sock", config.id.identifier.to_hex_string())
    );
    let identifier = config.id.identifier;
    let (network, ctl) = config.into_network();
    assert_eq!(network.port, 0xfe11);
    assert_eq!(network.id.identifier, identifier);
    let unix: UnixState<()> = UnixState::new(ctl.clone());
    let saved = Configuration::from_state(&network, &unix).unwrap();
    assert_eq!(saved.port, 0xfe11);
    assert_eq!(saved.ctl_socket, ctl);
    assert_eq!(saved.pib.len(), 0);
    assert_eq!(saved.id.identifier, identifier);
    let other = NetworkState::new(saved.id, PeerInformationBase::new(), vec![], 1);
    assert_eq!(other.port, 1);
}

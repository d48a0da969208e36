use uip::identifier::{HexError, Identifier};

const HEX: &str = "000102030405060708090A0B0C0D0E0F101112131415161718191A1B1C1D1E1F";

fn sample() -> Identifier {
    let bytes: Vec<u8> = (0u8..32).collect();
    Identifier::copy_from_slice(&bytes).unwrap()
}

#[test]
fn copy_from_slice_takes_first_32_bytes() {
    let bytes: Vec<u8> = (0u8..40).collect();
    let id = Identifier::copy_from_slice(&bytes).unwrap();
    assert_eq!(id.as_bytes(), &bytes[..32]);
    assert_eq!(id.len(), 32);
}

#[test]
fn copy_from_short_slice_fails() {
    let err = Identifier::copy_from_slice(&[1u8; 31]).unwrap_err();
    assert_eq!(err, "Slice length insufficient");
}

#[test]
fn default_identifier_is_empty() {
    assert!(Identifier::default().is_empty());
    assert!(!sample().is_empty());
    assert_eq!(Identifier::default().as_bytes(), &[0u8; 32]);
}

#[test]
fn prints_upper_case_hex() {
    assert_eq!(sample().to_hex_string(), HEX);
}

#[test]
fn parses_hex_of_either_case() {
    assert_eq!(HEX.parse::<Identifier>().unwrap(), sample());
    assert_eq!(Identifier::parse_hex(&HEX.to_lowercase()).unwrap(), sample());
}

#[test]
fn hex_round_trip() {
    let id: Identifier = "FFEE0102030405060708090A0B0C0D0E0F101112131415161718191A1B1C1D1E"
        .parse()
        .unwrap();
    assert_eq!(Identifier::parse_hex(&id.to_hex_string()).unwrap(), id);
}

#[test]
fn parse_rejects_wrong_length() {
    assert_eq!(Identifier::parse_hex("0A0B"), Err(HexError::InvalidLength(4)));
    assert_eq!(
        "0A0B".parse::<Identifier>().unwrap_err(),
        "String length insufficient"
    );
    assert_eq!(Identifier::parse_hex(&format!("{}0", HEX)), Err(HexError::InvalidLength(65)));
}

#[test]
fn parse_reports_first_invalid_pair() {
    let mut s = String::from(HEX);
    s.replace_range(10..12, "zz");
    s.replace_range(20..22, "-1");
    assert_eq!(Identifier::parse_hex(&s), Err(HexError::InvalidValue(5)));
    assert_eq!(s.parse::<Identifier>().unwrap_err(), "Invalid characters in string");
}

#[test]
fn parse_accepts_plus_sign_before_one_digit() {
    let mut s = String::from(HEX);
    s.replace_range(0..2, "+f");
    let id = Identifier::parse_hex(&s).unwrap();
    assert_eq!(id.as_bytes()[0], 15);
}

#[test]
fn parse_rejects_non_ascii() {
    let s = format!("{}é", &HEX[..62]);
    assert_eq!(s.len(), 64);
    assert_eq!(Identifier::parse_hex(&s), Err(HexError::InvalidValue(31)));
}

#[test]
fn identifiers_compare_by_bytes() {
    let mut other = [0u8; 32];
    other[31] = 1;
    let a = Identifier::copy_from_slice(&other).unwrap();
    assert_ne!(a, Identifier::default());
    assert_eq!(a, Identifier::copy_from_slice(&other).unwrap());
}

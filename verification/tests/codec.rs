use mini_uuid::{error, MiniUuid};

const FIXTURE_TEXT: &str = "fc3ceb1c-5ffd-4596-806a-595ee34acd1f";
const FIXTURE_BYTES: [u8; 16] = [
    0xfc, 0x3c, 0xeb, 0x1c, 0x5f, 0xfd, 0x45, 0x96, 0x80, 0x6a, 0x59, 0x5e, 0xe3, 0x4a, 0xcd,
    0x1f,
];

#[test]
fn round_trip_standard_padded() {
    let m = MiniUuid::from_bytes(FIXTURE_BYTES);
    let back = MiniUuid::from_base64(&m.to_base64()).unwrap();
    assert_eq!(back.into_bytes(), FIXTURE_BYTES);
}

#[test]
fn round_trip_standard_no_pad() {
    let m = MiniUuid::from_bytes(FIXTURE_BYTES);
    let back = MiniUuid::from_base64_no_pad(&m.to_base64_no_pad()).unwrap();
    assert_eq!(back.into_bytes(), FIXTURE_BYTES);
}

#[test]
fn round_trip_url_padded() {
    let m = MiniUuid::from_bytes(FIXTURE_BYTES);
    assert_eq!(m.to_url_base64(), "_DzrHF_9RZaAalle40rNHw==");
    let back = MiniUuid::from_url_base64(&m.to_url_base64()).unwrap();
    assert_eq!(back.into_bytes(), FIXTURE_BYTES);
}

#[test]
fn round_trip_url_no_pad() {
    let m = MiniUuid::from_bytes(FIXTURE_BYTES);
    assert_eq!(m.to_url_base64_no_pad(), "_DzrHF_9RZaAalle40rNHw");
    let back = MiniUuid::from_url_base64_no_pad(&m.to_url_base64_no_pad()).unwrap();
    assert_eq!(back.into_bytes(), FIXTURE_BYTES);
}

#[test]
fn round_trip_every_variant_other_bytes() {
    let bytes: [u8; 16] = [0, 1, 2, 3, 4, 5, 6, 7, 8, 9, 250, 251, 252, 253, 254, 255];
    let m = MiniUuid::from_bytes(bytes);
    let choices = [(false, false), (false, true), (true, false), (true, true)];
    for (url_safe, padded) in choices {
        let text = m.to_text(url_safe, padded);
        let back = MiniUuid::from_text(url_safe, padded, &text).unwrap();
        assert_eq!(back.into_bytes(), bytes);
    }
}

#[test]
fn padded_text_is_unpadded_text_plus_suffix() {
    let m = MiniUuid::from_bytes(FIXTURE_BYTES);
    let mut expected = m.to_base64_no_pad();
    expected.push_str("==");
    assert_eq!(m.to_base64(), expected);
    let mut expected_url = m.to_url_base64_no_pad();
    expected_url.push_str("==");
    assert_eq!(m.to_url_base64(), expected_url);
}

#[test]
fn standard_text_rejected_by_url_decoder() {
    let err = MiniUuid::from_url_base64("/DzrHF/9RZaAalle40rNHw==").unwrap_err();
    assert_eq!(error::ErrorKind::InvalidBase64, err.kind());
    let err = MiniUuid::from_url_base64_no_pad("/DzrHF/9RZaAalle40rNHw").unwrap_err();
    assert_eq!(error::ErrorKind::InvalidBase64, err.kind());
}

#[test]
fn url_text_rejected_by_standard_decoder() {
    let err = MiniUuid::from_base64("_DzrHF_9RZaAalle40rNHw==").unwrap_err();
    assert_eq!(error::ErrorKind::InvalidBase64, err.kind());
}

#[test]
fn short_payload_is_a_size_error() {
    let err = MiniUuid::from_base64("AAAA").unwrap_err();
    assert_eq!(error::ErrorKind::InvalidUuidSize, err.kind());
    let err = MiniUuid::from_base64_no_pad("AAAA").unwrap_err();
    assert_eq!(error::ErrorKind::InvalidUuidSize, err.kind());
}

#[test]
fn long_payload_is_a_size_error() {
    let err = MiniUuid::from_base64_no_pad("AAAAAAAAAAAAAAAAAAAAAAAAAAAAAAAA").unwrap_err();
    assert_eq!(error::ErrorKind::InvalidUuidSize, err.kind());
}

#[test]
fn bad_symbol_is_a_base64_error_not_a_size_error() {
    let err = MiniUuid::from_base64_no_pad("AA!A").unwrap_err();
    assert_eq!(error::ErrorKind::InvalidBase64, err.kind());
}

#[test]
fn from_uuid_str_reads_the_canonical_form() {
    let m = MiniUuid::from_uuid_str(FIXTURE_TEXT).unwrap();
    assert_eq!(m.into_bytes(), FIXTURE_BYTES);
}

#[test]
fn malformed_uuid_text_is_an_invalid_uuid_error() {
    let parse_fault = MiniUuid::from_uuid_str("not-a-uuid").unwrap_err();
    let err = error::Error::from(parse_fault);
    assert_eq!(error::ErrorKind::InvalidUuid, err.kind());
}

#[test]
fn uuid_round_trip_preserves_the_value() {
    let uuid = uuid::Uuid::parse_str(FIXTURE_TEXT).unwrap();
    let back = MiniUuid::from_uuid(uuid).to_uuid();
    assert_eq!(uuid, back);
    assert_eq!(MiniUuid::from(uuid).into_bytes(), FIXTURE_BYTES);
}

#[test]
fn generated_value_has_version_four_layout() {
    let bytes = MiniUuid::new().into_bytes();
    assert_eq!(bytes[6] & 0xf0, 0x40);
    assert_eq!(bytes[8] & 0xc0, 0x80);
}

#[test]
fn default_text_is_standard_unpadded() {
    let m = MiniUuid::from_bytes(FIXTURE_BYTES);
    assert_eq!(m.to_string(), m.to_base64_no_pad());
    let back = MiniUuid::from_string(&m.to_string()).unwrap();
    assert_eq!(back.into_bytes(), FIXTURE_BYTES);
}

#[test]
fn error_kind_carries_over_through_into() {
    let err = MiniUuid::from_base64("AA!A").unwrap_err();
    let kind: error::ErrorKind = err.into();
    assert_eq!(error::ErrorKind::InvalidBase64, kind);
}

#[test]
fn empty_text_decodes_to_zero_bytes_and_is_a_size_error() {
    let err = MiniUuid::from_base64("").unwrap_err();
    assert_eq!(error::ErrorKind::InvalidUuidSize, err.kind());
    let err = MiniUuid::from_base64_no_pad("").unwrap_err();
    assert_eq!(error::ErrorKind::InvalidUuidSize, err.kind());
}

#[test]
fn empty_uuid_text_is_refused() {
    assert!(MiniUuid::from_uuid_str("").is_err());
}

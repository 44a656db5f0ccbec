use inspiraview::payload::decode_payload;
use inspiraview::payload::encode_payload;
use inspiraview::payload::payload_round_trip;

#[test]
fn encode_produces_standard_base64() {
    assert_eq!(encode_payload(&vec![104, 105]), "aGk=");
    assert_eq!(encode_payload(&b"Man".to_vec()), "TWFu");
    assert_eq!(encode_payload(&vec![0]), "AA==");
    assert_eq!(encode_payload(&vec![255, 255, 255]), "////");
}

#[test]
fn encode_of_empty_is_empty() {
    assert_eq!(encode_payload(&Vec::new()), "");
}

#[test]
fn decode_inverts_known_encoding() {
    assert_eq!(decode_payload("aGk="), Some(vec![104, 105]));
    assert_eq!(decode_payload(""), Some(Vec::new()));
}

#[test]
fn decode_rejects_invalid_payloads() {
    assert_eq!(decode_payload("not a payload!"), None);
    assert_eq!(decode_payload("aGk"), None); // missing padding
    assert_eq!(decode_payload("aG=k"), None); // padding inside
}

#[test]
fn round_trip_reproduces_bytes() {
    for bytes in [
        Vec::new(),
        vec![0],
        vec![255],
        vec![104, 105],
        vec![0, 1, 2, 3, 4, 5, 250, 251, 252, 253, 254, 255],
        (0..=255u8).collect::<Vec<u8>>(),
    ] {
        assert_eq!(payload_round_trip(&bytes), bytes);
        let encoded = encode_payload(&bytes);
        assert_eq!(decode_payload(&encoded), Some(bytes));
    }
}

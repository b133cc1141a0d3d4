use rcli::b64::{process_decode, process_encode, Base64Format};
use rcli::errors::TextError;

#[test]
fn test_process_encode() {
    let encoded = process_encode(b"Cargo.toml", Base64Format::Standard, false);
    assert_eq!(encoded, "Q2FyZ28udG9tbA==");
}

#[test]
fn test_process_decode() {
    let decoded = process_decode(b"Q2FyZ28udG9tbA", Base64Format::Urlsafe, true).unwrap();
    assert_eq!(decoded, b"Cargo.toml");
}

#[test]
fn encode_uses_the_requested_alphabet_and_padding() {
    let data: &[u8] = &[0xfb, 0xff];
    assert_eq!(process_encode(data, Base64Format::Standard, false), "+/8=");
    assert_eq!(process_encode(data, Base64Format::Standard, true), "+/8");
    assert_eq!(process_encode(data, Base64Format::Urlsafe, false), "-_8=");
    assert_eq!(process_encode(data, Base64Format::Urlsafe, true), "-_8");
}

#[test]
fn decode_round_trips_encode() {
    let data: &[u8] = b"hello world";
    for (format, no_padding) in [
        (Base64Format::Standard, false),
        (Base64Format::Standard, true),
        (Base64Format::Urlsafe, false),
        (Base64Format::Urlsafe, true),
    ] {
        let encoded = process_encode(data, format, no_padding);
        let decoded = process_decode(encoded.as_bytes(), format, no_padding).unwrap();
        assert_eq!(decoded, data);
    }
}

#[test]
fn decode_rejects_what_is_not_canonical() {
    assert_eq!(
        process_decode(b"!!!", Base64Format::Standard, false),
        Err(TextError::InvalidEncoding)
    );
    // Padding where the convention forbids it.
    assert_eq!(
        process_decode(b"Q2FyZ28udG9tbA==", Base64Format::Urlsafe, true),
        Err(TextError::InvalidEncoding)
    );
    // Missing padding where the convention demands it.
    assert_eq!(
        process_decode(b"Q2FyZ28udG9tbA", Base64Format::Standard, false),
        Err(TextError::InvalidEncoding)
    );
}

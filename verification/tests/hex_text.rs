use ic_eth::hex::{from_hex, to_hex, HexError};

#[test]
fn empty_data_encodes_to_the_prefix_alone() {
    assert_eq!(to_hex(&[]), "0x");
}

#[test]
fn data_encodes_to_lower_case_digits() {
    assert_eq!(to_hex(&[0xde, 0xad, 0xbe, 0xef]), "0xdeadbeef");
    assert_eq!(to_hex(&[0x00, 0x01, 0x0f, 0x10, 0xff]), "0x00010f10ff");
}

#[test]
fn every_byte_survives_a_round_trip() {
    let all: Vec<u8> = (0..=255u8).collect();
    let text = to_hex(&all);
    assert_eq!(text.len(), 2 + 2 * 256);
    assert_eq!(from_hex(&text), Ok(all));
}

#[test]
fn empty_text_after_the_prefix_decodes_to_no_data() {
    assert_eq!(from_hex("0x"), Ok(vec![]));
}

#[test]
fn digits_in_either_case_decode() {
    assert_eq!(from_hex("0xDEADbeef"), Ok(vec![0xde, 0xad, 0xbe, 0xef]));
}

#[test]
fn text_without_the_prefix_is_refused() {
    assert_eq!(from_hex(""), Err(HexError::MissingPrefix));
    assert_eq!(from_hex("0"), Err(HexError::MissingPrefix));
    assert_eq!(from_hex("deadbeef"), Err(HexError::MissingPrefix));
    assert_eq!(from_hex("0Xdead"), Err(HexError::MissingPrefix));
    assert_eq!(from_hex("\u{e9}x00"), Err(HexError::MissingPrefix));
}

#[test]
fn a_character_that_is_no_digit_is_refused() {
    assert_eq!(from_hex("0xzz"), Err(HexError::InvalidDigit));
    assert_eq!(from_hex("0x0g"), Err(HexError::InvalidDigit));
    assert_eq!(from_hex("0x12\u{e9}4"), Err(HexError::InvalidDigit));
}

#[test]
fn an_invalid_digit_is_reported_before_an_odd_length() {
    assert_eq!(from_hex("0xabz"), Err(HexError::InvalidDigit));
}

#[test]
fn an_odd_number_of_digits_is_refused() {
    assert_eq!(from_hex("0xabc"), Err(HexError::OddLength));
    assert_eq!(from_hex("0x0"), Err(HexError::OddLength));
}

use seedkeys::hexstr::decode_hex;
use seedkeys::hexstr::encode_hex;
use seedkeys::hexstr::HexError;

#[test]
fn encode_is_lowercase_two_digits_per_byte() {
    assert_eq!(encode_hex(&[]), "");
    assert_eq!(encode_hex(&[0x00]), "00");
    assert_eq!(encode_hex(&[0x0f, 0xa5, 0xff]), "0fa5ff");
}

#[test]
fn encode_agrees_with_hex_crate() {
    let data: Vec<u8> = (0u16..=255).map(|b| b as u8).collect();
    assert_eq!(encode_hex(&data), hex::encode(&data));
}

#[test]
fn decode_inverts_encode() {
    let data: Vec<u8> = vec![0, 1, 15, 16, 127, 128, 254, 255];
    let encoded = encode_hex(&data);
    assert_eq!(decode_hex(&encoded), Ok(data));
}

#[test]
fn decode_accepts_both_cases() {
    assert_eq!(decode_hex("aBcDeF"), Ok(vec![0xab, 0xcd, 0xef]));
    assert_eq!(decode_hex(""), Ok(vec![]));
}

#[test]
fn decode_rejects_odd_length() {
    assert_eq!(decode_hex("abc"), Err(HexError::OddLength));
}

#[test]
fn decode_rejects_non_hex_characters() {
    assert_eq!(decode_hex("zz"), Err(HexError::InvalidDigit));
    assert_eq!(decode_hex("0g"), Err(HexError::InvalidDigit));
    assert_eq!(decode_hex("a\u{e9}"), Err(HexError::InvalidDigit));
}

use intent_relay::encoding::word_from_u64;
use intent_relay::eth::{
    abi_encode, address_from_str, keccak256, signature_from_str, u256_from_dec_str,
    u256_from_hex_str, AbiToken,
};
use intent_relay::hexcodec::{hex_decode, hex_encode};
use intent_relay::text::{
    is_whitespace, parse_u64, skip_two, starts_with_0x, starts_with_lower_0x, str_eq, to_lowercase,
    trim,
};

fn word_with_tail(tail: &[u8]) -> Vec<u8> {
    let mut w = vec![0u8; 32 - tail.len()];
    w.extend_from_slice(tail);
    w
}

#[test]
fn str_eq_compares_characters() {
    assert!(str_eq("PENDING", "PENDING"));
    assert!(!str_eq("PENDING", "PENDINg"));
    assert!(!str_eq("PEND", "PENDING"));
    assert!(str_eq("", ""));
}

#[test]
fn whitespace_follows_unicode_white_space() {
    assert!(is_whitespace(' '));
    assert!(is_whitespace('\t'));
    assert!(is_whitespace('\u{3000}'));
    assert!(is_whitespace('\u{2028}'));
    assert!(is_whitespace('\u{85}'));
    assert!(!is_whitespace('a'));
    assert!(!is_whitespace('\u{200B}'));
}

#[test]
fn trim_removes_both_ends() {
    assert_eq!(trim("  ab c \t\n"), "ab c");
    assert_eq!(trim("\u{3000}x\u{2028}"), "x");
    assert_eq!(trim(" \n\t "), "");
    assert_eq!(trim(""), "");
    assert_eq!(trim("é "), "é");
}

#[test]
fn parse_u64_follows_str_parse() {
    assert_eq!(parse_u64("42"), Some(42));
    assert_eq!(parse_u64("+7"), Some(7));
    assert_eq!(parse_u64("007"), Some(7));
    assert_eq!(parse_u64(""), None);
    assert_eq!(parse_u64("+"), None);
    assert_eq!(parse_u64("-1"), None);
    assert_eq!(parse_u64(" 1"), None);
    assert_eq!(parse_u64("1x"), None);
    assert_eq!(parse_u64("18446744073709551615"), Some(u64::MAX));
    assert_eq!(parse_u64("18446744073709551616"), None);
    assert_eq!(parse_u64("99999999999999999999x"), None);
    for s in ["0", "1", "137", "+10", "abc", "-0", "1844674407370955161"] {
        assert_eq!(parse_u64(s), s.parse::<u64>().ok());
    }
}

#[test]
fn prefixes_and_lowercase() {
    assert!(starts_with_0x("0X12"));
    assert!(starts_with_0x("0x12"));
    assert!(!starts_with_0x("x012"));
    assert!(!starts_with_lower_0x("0X12"));
    assert!(starts_with_lower_0x("0x"));
    assert_eq!(skip_two("0xabc"), "abc");
    assert_eq!(to_lowercase("0xABcD"), "0xabcd");
    assert_eq!(to_lowercase("ÀÉ"), "àé");
}

#[test]
fn word_from_u64_is_big_endian() {
    assert_eq!(word_from_u64(0x0102), word_with_tail(&[1, 2]));
    assert_eq!(word_from_u64(0), vec![0u8; 32]);
    assert_eq!(word_from_u64(u64::MAX), word_with_tail(&[0xff; 8]));
}

#[test]
fn hex_decode_and_encode() {
    assert_eq!(hex_decode("0aFf"), Some(vec![0x0a, 0xff]));
    assert_eq!(hex_decode(""), Some(vec![]));
    assert_eq!(hex_decode("abc"), None);
    assert_eq!(hex_decode("zz"), None);
    assert_eq!(hex_decode("0x00"), None);
    assert_eq!(hex_decode("éé"), None);
    assert_eq!(hex_encode(&[0xde, 0xad, 0x01]), "dead01");
    assert_eq!(hex_encode(&[]), "");
}

#[test]
fn keccak256_of_empty_input() {
    let expected = hex::decode("c5d2460186f7233c927e7db2dcc703c0e500b653ca82273b7bfad8045d85a470").unwrap();
    assert_eq!(keccak256(&[]), expected);
    assert_ne!(keccak256(b"abc"), b"abc".to_vec());
}

#[test]
fn u256_decimal_parsing() {
    assert_eq!(u256_from_dec_str("1000"), Some(word_with_tail(&[0x03, 0xe8])));
    assert_eq!(u256_from_dec_str(""), Some(vec![0u8; 32]));
    assert_eq!(u256_from_dec_str("12a"), None);
    assert_eq!(u256_from_dec_str("-1"), None);
    let max = "115792089237316195423570985008687907853269984665640564039457584007913129639935";
    assert_eq!(u256_from_dec_str(max), Some(vec![0xff; 32]));
    let over = "115792089237316195423570985008687907853269984665640564039457584007913129639936";
    assert_eq!(u256_from_dec_str(over), None);
}

#[test]
fn u256_hex_parsing() {
    assert_eq!(u256_from_hex_str("0xff"), Some(word_with_tail(&[0xff])));
    assert_eq!(u256_from_hex_str("fff"), Some(word_with_tail(&[0x0f, 0xff])));
    assert_eq!(u256_from_hex_str("0x"), Some(vec![0u8; 32]));
    assert_eq!(u256_from_hex_str("0Xff"), None);
    let too_long = format!("0x1{}", "0".repeat(64));
    assert_eq!(u256_from_hex_str(&too_long), None);
    let full = format!("0x{}", "f".repeat(64));
    assert_eq!(u256_from_hex_str(&full), Some(vec![0xff; 32]));
}

#[test]
fn address_parsing() {
    let text = "0x00112233445566778899aabbccddeeff00112233";
    let expected = hex::decode("00112233445566778899aabbccddeeff00112233").unwrap();
    assert_eq!(address_from_str(text), Some(expected.clone()));
    assert_eq!(address_from_str(&text[2..]), Some(expected.clone()));
    assert_eq!(address_from_str("0x00112233445566778899AABBCCDDEEFF00112233"), Some(expected.clone()));
    assert_eq!(address_from_str("0x0011 2233445566778899aabbccddeeff00112233 "), Some(expected));
    assert_eq!(address_from_str("0X00112233445566778899aabbccddeeff00112233"), None);
    assert_eq!(address_from_str("0x00112233445566778899aabbccddeeff001122"), None);
    assert_eq!(address_from_str("0x00112233445566778899aabbccddeeff0011223344"), None);
    assert_eq!(address_from_str("0x00112233445566778899aabbccddeeff0011223g"), None);
}

#[test]
fn signature_text_parsing() {
    let r = "11".repeat(32);
    let s = "22".repeat(32);
    let text = format!("0x{r}{s}1b");
    let sig = signature_from_str(&text).unwrap();
    assert_eq!(sig.r, vec![0x11; 32]);
    assert_eq!(sig.s, vec![0x22; 32]);
    assert_eq!(sig.v, 27);
    let upper = format!("0X{r}{s}1c");
    assert_eq!(signature_from_str(&upper).unwrap().v, 28);
    assert!(signature_from_str(&format!("{r}{s}00")).is_some());
    assert!(signature_from_str(&format!("0x{r}{s}")).is_none());
    assert!(signature_from_str(&format!("0x{r}{s}1")).is_none());
    assert!(signature_from_str("0x12").is_none());
}

#[test]
fn abi_encoding_of_static_tokens() {
    let address = vec![0x11u8; 20];
    let tokens = vec![
        AbiToken::Address(address.clone()),
        AbiToken::FixedBytes(vec![1, 2]),
        AbiToken::Uint(word_with_tail(&[5])),
        AbiToken::Bool(true),
        AbiToken::Bool(false),
    ];
    let encoded = abi_encode(&tokens);
    let mut expected = vec![0u8; 12];
    expected.extend_from_slice(&address);
    let mut fixed = vec![1u8, 2];
    fixed.extend_from_slice(&[0u8; 30]);
    expected.extend_from_slice(&fixed);
    expected.extend_from_slice(&word_with_tail(&[5]));
    expected.extend_from_slice(&word_with_tail(&[1]));
    expected.extend_from_slice(&[0u8; 32]);
    assert_eq!(encoded, expected);
}

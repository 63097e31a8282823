use helipad::hexfmt::{hex_decode, hex_encode};
use helipad::numeric::parse_u64;

#[test]
fn hex_encode_is_lowercase_two_digits_per_byte() {
    assert_eq!(hex_encode(&[0xde, 0xad, 0x00, 0x0f]), "dead000f");
    assert_eq!(hex_encode(&[]), "");
}

#[test]
fn hex_decode_reads_lowercase_pairs() {
    assert_eq!(hex_decode("02ab"), Some(vec![0x02, 0xab]));
    assert_eq!(hex_decode(""), Some(Vec::new()));
}

#[test]
fn hex_decode_refuses_odd_length_and_bad_digits() {
    assert!(hex_decode("abc").is_none());
    assert!(hex_decode("0g").is_none());
    assert!(hex_decode("AB").is_none());
}

#[test]
fn hex_round_trips() {
    let bytes: Vec<u8> = (0u8..=255).collect();
    let text = hex_encode(&bytes);
    assert_eq!(hex_decode(&text), Some(bytes));
}

#[test]
fn parse_u64_reads_decimal() {
    assert_eq!(parse_u64("0"), Some(0));
    assert_eq!(parse_u64("9000"), Some(9000));
    assert_eq!(parse_u64("+42"), Some(42));
    assert_eq!(parse_u64("007"), Some(7));
}

#[test]
fn parse_u64_matches_the_standard_parser_on_edges() {
    assert_eq!(parse_u64("18446744073709551615"), Some(u64::MAX));
    assert_eq!(parse_u64("18446744073709551616"), None);
    assert_eq!(parse_u64(""), None);
    assert_eq!(parse_u64("+"), None);
    assert_eq!(parse_u64("-1"), None);
    assert_eq!(parse_u64("12a"), None);
    assert_eq!(parse_u64(" 1"), None);
}

#[test]
fn parse_u64_agrees_with_str_parse() {
    for s in ["0", "1", "+55", "18446744073709551615", "99999999999999999999", "x", ""] {
        assert_eq!(parse_u64(s), s.parse::<u64>().ok());
    }
}

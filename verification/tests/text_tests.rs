use pwm_fan::text::encode_u8_decimal;
use pwm_fan::text::parse_u8;

#[test]
fn encode_exact_digits() {
    assert_eq!(encode_u8_decimal(0), b"0".to_vec());
    assert_eq!(encode_u8_decimal(7), b"7".to_vec());
    assert_eq!(encode_u8_decimal(10), b"10".to_vec());
    assert_eq!(encode_u8_decimal(77), b"77".to_vec());
    assert_eq!(encode_u8_decimal(100), b"100".to_vec());
    assert_eq!(encode_u8_decimal(247), b"247".to_vec());
    assert_eq!(encode_u8_decimal(255), b"255".to_vec());
}

#[test]
fn parse_plain_decimals() {
    assert_eq!(parse_u8(b"1"), Some(1));
    assert_eq!(parse_u8(b"2"), Some(2));
    assert_eq!(parse_u8(b"77"), Some(77));
    assert_eq!(parse_u8(b"255"), Some(255));
    assert_eq!(parse_u8(b"007"), Some(7));
}

#[test]
fn parse_trims_whitespace() {
    assert_eq!(parse_u8(b" 77\n"), Some(77));
    assert_eq!(parse_u8(b"\t2 \r\n"), Some(2));
    assert_eq!(parse_u8(b"1\n"), Some(1));
}

#[test]
fn parse_rejects_bad_input() {
    assert_eq!(parse_u8(b""), None);
    assert_eq!(parse_u8(b" \n\t"), None);
    assert_eq!(parse_u8(b"256"), None);
    assert_eq!(parse_u8(b"999"), None);
    assert_eq!(parse_u8(b"12a"), None);
    assert_eq!(parse_u8(b"a12"), None);
    assert_eq!(parse_u8(b"1 2"), None);
    assert_eq!(parse_u8(b"-1"), None);
}

#[test]
fn parse_reads_back_every_encoded_value() {
    for v in 0..=255u8 {
        let text = encode_u8_decimal(v);
        assert_eq!(parse_u8(&text), Some(v));
    }
}

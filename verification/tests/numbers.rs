use tk_http::numfmt::{decimal_of, hex_of};
use tk_http::text::parse_u64;

#[test]
fn decimal_and_hex() {
    assert_eq!(decimal_of(0), b"0".to_vec());
    assert_eq!(decimal_of(1234567890), b"1234567890".to_vec());
    assert_eq!(decimal_of(u64::MAX), u64::MAX.to_string().into_bytes());
    assert_eq!(hex_of(255), b"ff".to_vec());
    assert_eq!(hex_of(16), b"10".to_vec());
}

#[test]
fn parse_numbers() {
    assert_eq!(parse_u64(b"0"), Some(0));
    assert_eq!(parse_u64(b"18446744073709551615"), Some(u64::MAX));
    assert_eq!(parse_u64(b"18446744073709551616"), None);
    assert_eq!(parse_u64(b""), None);
    assert_eq!(parse_u64(b"12a"), None);
    assert_eq!(parse_u64(b"+1"), Some(1));
}


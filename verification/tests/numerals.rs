//! Decimal rendering and parsing of keys and status codes.

use lgremote::{parse_u32, u32_to_dec};

#[test]
fn renders_decimal_numerals() {
    assert_eq!(u32_to_dec(0), "0");
    assert_eq!(u32_to_dec(7), "7");
    assert_eq!(u32_to_dec(24), "24");
    assert_eq!(u32_to_dec(401), "401");
    assert_eq!(u32_to_dec(1234), "1234");
    assert_eq!(u32_to_dec(u32::MAX), "4294967295");
}

#[test]
fn parses_plain_decimal_strings() {
    assert_eq!(parse_u32("0"), Some(0));
    assert_eq!(parse_u32("1234"), Some(1234));
    assert_eq!(parse_u32("00024"), Some(24));
    assert_eq!(parse_u32("4294967295"), Some(u32::MAX));
}

#[test]
fn rejects_anything_but_digits() {
    assert_eq!(parse_u32(""), None);
    assert_eq!(parse_u32("abc"), None);
    assert_eq!(parse_u32("12a"), None);
    assert_eq!(parse_u32("a12"), None);
    assert_eq!(parse_u32("+12"), None);
    assert_eq!(parse_u32("-12"), None);
    assert_eq!(parse_u32(" 12"), None);
    assert_eq!(parse_u32("12 "), None);
    assert_eq!(parse_u32("1.2"), None);
}

#[test]
fn rejects_values_beyond_u32() {
    assert_eq!(parse_u32("4294967296"), None);
    assert_eq!(parse_u32("99999999999999999999"), None);
}

#[test]
fn rendering_then_parsing_returns_the_value() {
    for n in [0u32, 1, 9, 10, 42, 8080, 4_294_967_295] {
        assert_eq!(parse_u32(&u32_to_dec(n)), Some(n));
    }
}

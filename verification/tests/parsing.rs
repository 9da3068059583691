use bustd::scan::{parse_decimal_i32, parse_decimal_u64};

#[test]
fn plain_unsigned_records_parse_exactly() {
    assert_eq!(parse_decimal_u64(b"0"), Some(0));
    assert_eq!(parse_decimal_u64(b"42"), Some(42));
    assert_eq!(parse_decimal_u64(b"007"), Some(7));
    assert_eq!(parse_decimal_u64(b"1048576"), Some(1_048_576));
}

#[test]
fn unsigned_parsing_covers_the_whole_word_and_no_more() {
    assert_eq!(parse_decimal_u64(b"18446744073709551615"), Some(u64::MAX));
    assert_eq!(parse_decimal_u64(b"18446744073709551616"), None);
    assert_eq!(parse_decimal_u64(b"99999999999999999999999"), None);
}

#[test]
fn malformed_unsigned_records_are_rejected() {
    assert_eq!(parse_decimal_u64(b""), None);
    assert_eq!(parse_decimal_u64(b"12a"), None);
    assert_eq!(parse_decimal_u64(b" 12"), None);
    assert_eq!(parse_decimal_u64(b"-5"), None);
    assert_eq!(parse_decimal_u64(b"1 2"), None);
}

#[test]
fn signed_records_parse_with_an_optional_minus() {
    assert_eq!(parse_decimal_i32(b"0"), Some(0));
    assert_eq!(parse_decimal_i32(b"1000"), Some(1000));
    assert_eq!(parse_decimal_i32(b"-1000"), Some(-1000));
    assert_eq!(parse_decimal_i32(b"-0"), Some(0));
}

#[test]
fn signed_parsing_covers_the_whole_range_and_no_more() {
    assert_eq!(parse_decimal_i32(b"2147483647"), Some(i32::MAX));
    assert_eq!(parse_decimal_i32(b"2147483648"), None);
    assert_eq!(parse_decimal_i32(b"-2147483648"), Some(i32::MIN));
    assert_eq!(parse_decimal_i32(b"-2147483649"), None);
}

#[test]
fn malformed_signed_records_are_rejected() {
    assert_eq!(parse_decimal_i32(b""), None);
    assert_eq!(parse_decimal_i32(b"-"), None);
    assert_eq!(parse_decimal_i32(b"--1"), None);
    assert_eq!(parse_decimal_i32(b"1-"), None);
    assert_eq!(parse_decimal_i32(b"+1"), None);
}

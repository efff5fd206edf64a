use btcturk_websockets::decimal::decimal_string;
use btcturk_websockets::decimal::decimal_string_u64;
use btcturk_websockets::decimal::parse_i32;
use btcturk_websockets::decimal::parse_i64;

#[test]
fn decimal_string_writes_plain_digits() {
    assert_eq!(decimal_string(0), "0");
    assert_eq!(decimal_string(7), "7");
    assert_eq!(decimal_string(10), "10");
    assert_eq!(decimal_string(3000), "3000");
    assert_eq!(decimal_string(1700000000000), "1700000000000");
    assert_eq!(decimal_string(-1), "-1");
    assert_eq!(decimal_string(-120), "-120");
}

#[test]
fn decimal_string_reaches_both_ends() {
    assert_eq!(decimal_string(i64::MAX), "9223372036854775807");
    assert_eq!(decimal_string(i64::MIN), "-9223372036854775808");
    assert_eq!(decimal_string_u64(u64::MAX), "18446744073709551615");
    assert_eq!(decimal_string_u64(0), "0");
}

#[test]
fn decimal_string_agrees_with_the_standard_formatting() {
    let samples: [i64; 9] = [0, 1, -1, 9, 10, 99, 100, 123456789, -987654321012];
    for n in samples {
        assert_eq!(decimal_string(n), format!("{}", n));
    }
}

#[test]
fn parse_reads_what_was_written() {
    let samples: [i64; 10] = [0, 1, -1, 9, 10, 402, 461280, i64::MAX, i64::MIN, -1700000000000];
    for n in samples {
        assert_eq!(parse_i64(&decimal_string(n)), Some(n));
    }
}

#[test]
fn parse_refuses_other_notations() {
    assert_eq!(parse_i64(""), None);
    assert_eq!(parse_i64("-"), None);
    assert_eq!(parse_i64("+5"), None);
    assert_eq!(parse_i64("007"), None);
    assert_eq!(parse_i64("-0"), None);
    assert_eq!(parse_i64("-01"), None);
    assert_eq!(parse_i64("1.5"), None);
    assert_eq!(parse_i64("57.0"), None);
    assert_eq!(parse_i64("1e3"), None);
    assert_eq!(parse_i64(" 1"), None);
    assert_eq!(parse_i64("1 "), None);
    assert_eq!(parse_i64("12a"), None);
    assert_eq!(parse_i64("--1"), None);
    assert_eq!(parse_i64("\u{663}"), None);
    assert_eq!(parse_i64("1\u{e9}"), None);
}

#[test]
fn parse_refuses_what_does_not_fit() {
    assert_eq!(parse_i64("9223372036854775807"), Some(i64::MAX));
    assert_eq!(parse_i64("9223372036854775808"), None);
    assert_eq!(parse_i64("-9223372036854775808"), Some(i64::MIN));
    assert_eq!(parse_i64("-9223372036854775809"), None);
    assert_eq!(parse_i64("18446744073709551616"), None);
    assert_eq!(parse_i64("99999999999999999999999999"), None);
    assert_eq!(parse_i32("2147483647"), Some(i32::MAX));
    assert_eq!(parse_i32("2147483648"), None);
    assert_eq!(parse_i32("-2147483648"), Some(i32::MIN));
    assert_eq!(parse_i32("-2147483649"), None);
    assert_eq!(parse_i32("402"), Some(402));
    assert_eq!(parse_i32("0"), Some(0));
}

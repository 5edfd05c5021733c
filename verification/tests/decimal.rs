use auto_pr::decimal::{decimal_text, natural_text, parse_i64};

#[test]
fn parses_plain_and_signed_numbers() {
    assert_eq!(parse_i64("0"), Some(0));
    assert_eq!(parse_i64("1000"), Some(1000));
    assert_eq!(parse_i64("+5"), Some(5));
    assert_eq!(parse_i64("-5"), Some(-5));
    assert_eq!(parse_i64("007"), Some(7));
    assert_eq!(parse_i64("-0"), Some(0));
}

#[test]
fn parses_the_ends_of_the_range() {
    assert_eq!(parse_i64("9223372036854775807"), Some(i64::MAX));
    assert_eq!(parse_i64("-9223372036854775808"), Some(i64::MIN));
    assert_eq!(parse_i64("9223372036854775808"), None);
    assert_eq!(parse_i64("-9223372036854775809"), None);
    assert_eq!(parse_i64("99999999999999999999999999999999999999999999"), None);
    assert_eq!(parse_i64("00000000000000000000000000000000000000000042"), Some(42));
}

#[test]
fn rejects_what_is_no_number() {
    for s in ["", "+", "-", " 1", "1 ", "12a", "1.5", "--1", "+-1", "1\n", "٣"] {
        assert_eq!(parse_i64(s), None, "{:?}", s);
    }
}

#[test]
fn parsing_agrees_with_std() {
    for s in ["", "0", "-", "+0", "-17", "1700000000", "9223372036854775808", "x", "1_000"] {
        assert_eq!(parse_i64(s), s.parse::<i64>().ok(), "{:?}", s);
    }
}

#[test]
fn writes_numbers_in_decimal() {
    assert_eq!(decimal_text(0), "0");
    assert_eq!(decimal_text(7), "7");
    assert_eq!(decimal_text(-7), "-7");
    assert_eq!(decimal_text(1234567890), "1234567890");
    assert_eq!(decimal_text(i64::MAX), "9223372036854775807");
    assert_eq!(decimal_text(i64::MIN), "-9223372036854775808");
    assert_eq!(natural_text(u64::MAX), "18446744073709551615");
    assert_eq!(natural_text(10), "10");
}

#[test]
fn reading_what_was_written_gives_the_number_back() {
    for v in [0, 1, -1, 9, 10, -10, 3600, 1700000000, i64::MAX, i64::MIN] {
        assert_eq!(parse_i64(&decimal_text(v)), Some(v));
    }
}

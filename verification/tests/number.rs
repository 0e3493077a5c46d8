use todo::number::{decimal_string, read_position};

#[test]
fn decimal_string_of_small_numbers() {
    assert_eq!(decimal_string(0), "0");
    assert_eq!(decimal_string(7), "7");
    assert_eq!(decimal_string(9), "9");
}

#[test]
fn decimal_string_of_longer_numbers() {
    assert_eq!(decimal_string(10), "10");
    assert_eq!(decimal_string(42), "42");
    assert_eq!(decimal_string(100), "100");
    assert_eq!(decimal_string(1234567890), "1234567890");
}

#[test]
fn decimal_string_of_largest_number() {
    assert_eq!(decimal_string(usize::MAX), usize::MAX.to_string());
}

#[test]
fn position_reads_digits() {
    assert_eq!(read_position("1"), Some(1));
    assert_eq!(read_position("42"), Some(42));
    assert_eq!(read_position("0"), Some(0));
}

#[test]
fn position_takes_leading_zeros() {
    assert_eq!(read_position("007"), Some(7));
    assert_eq!(read_position("000"), Some(0));
}

#[test]
fn position_takes_one_plus_in_front() {
    assert_eq!(read_position("+5"), Some(5));
    assert_eq!(read_position("++5"), None);
    assert_eq!(read_position("5+"), None);
}

#[test]
fn position_needs_a_digit() {
    assert_eq!(read_position(""), None);
    assert_eq!(read_position("+"), None);
}

#[test]
fn position_turns_down_other_characters() {
    assert_eq!(read_position("abc"), None);
    assert_eq!(read_position("1a"), None);
    assert_eq!(read_position("a1"), None);
    assert_eq!(read_position(" 1"), None);
    assert_eq!(read_position("1 "), None);
    assert_eq!(read_position("1 2"), None);
    assert_eq!(read_position("1.0"), None);
    assert_eq!(read_position("-1"), None);
    assert_eq!(read_position("-0"), None);
    assert_eq!(read_position("١"), None);
}

#[test]
fn position_holds_what_fits() {
    assert_eq!(read_position(&usize::MAX.to_string()), Some(usize::MAX));
}

#[test]
fn position_turns_down_what_does_not_fit() {
    let mut digits = usize::MAX.to_string();
    digits.push('0');
    assert_eq!(read_position(&digits), None);
    assert_eq!(read_position("99999999999999999999999999999999999999999"), None);
    assert_eq!(read_position("340282366920938463463374607431768211456"), None);
}

#[test]
fn position_agrees_with_std() {
    for text in [
        "",
        "+",
        "-",
        "0",
        "+0",
        "-0",
        "12",
        "+12",
        "-12",
        "1_000",
        "0x10",
        "٣",
        "18446744073709551615",
        "18446744073709551616",
        "00000000000000000000000000001",
    ] {
        assert_eq!(read_position(text), text.parse::<usize>().ok());
    }
}

#[test]
fn position_reads_back_decimal_string() {
    for n in [0usize, 1, 9, 10, 11, 99, 100, 101, 65535, usize::MAX] {
        assert_eq!(read_position(&decimal_string(n)), Some(n));
    }
}

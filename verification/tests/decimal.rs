use travis_after_all::decimal::{format_number, parse_number};

#[test]
fn plain_numbers() {
    assert_eq!(parse_number("0"), Some(0));
    assert_eq!(parse_number("5"), Some(5));
    assert_eq!(parse_number("15"), Some(15));
    assert_eq!(parse_number("3600"), Some(3600));
}

#[test]
fn leading_zeros_do_not_count() {
    assert_eq!(parse_number("007"), Some(7));
    assert_eq!(parse_number("0000000000000000000000000012"), Some(12));
}

#[test]
fn one_plus_sign_is_accepted() {
    assert_eq!(parse_number("+5"), Some(5));
    assert_eq!(parse_number("+0"), Some(0));
}

#[test]
fn sign_alone_is_no_number() {
    assert_eq!(parse_number("+"), None);
    assert_eq!(parse_number("-"), None);
    assert_eq!(parse_number("++5"), None);
    assert_eq!(parse_number("5+"), None);
}

#[test]
fn empty_text_is_no_number() {
    assert_eq!(parse_number(""), None);
}

#[test]
fn negative_numbers_are_refused() {
    assert_eq!(parse_number("-5"), None);
    assert_eq!(parse_number("-0"), None);
}

#[test]
fn anything_but_digits_is_refused() {
    assert_eq!(parse_number(" 5"), None);
    assert_eq!(parse_number("5 "), None);
    assert_eq!(parse_number("5s"), None);
    assert_eq!(parse_number("1_000"), None);
    assert_eq!(parse_number("0x10"), None);
    assert_eq!(parse_number("1.5"), None);
    assert_eq!(parse_number("five"), None);
    assert_eq!(parse_number("٥"), None);
    assert_eq!(parse_number("/"), None);
    assert_eq!(parse_number(":"), None);
}

#[test]
fn largest_number_of_64_bits() {
    assert_eq!(parse_number("18446744073709551615"), Some(u64::MAX));
    assert_eq!(parse_number("+18446744073709551615"), Some(18446744073709551615));
}

#[test]
fn numbers_beyond_64_bits_are_refused() {
    assert_eq!(parse_number("18446744073709551616"), None);
    assert_eq!(parse_number("18446744073709551620"), None);
    assert_eq!(parse_number("99999999999999999999"), None);
    assert_eq!(parse_number("184467440737095516150"), None);
    assert_eq!(parse_number("100000000000000000000000000000"), None);
}

#[test]
fn overflow_before_a_bad_character_is_still_refused() {
    assert_eq!(parse_number("99999999999999999999x"), None);
}

#[test]
fn agrees_with_the_standard_parser() {
    let texts = [
        "", "+", "-", "0", "1", "9", "10", "+10", "-10", "00", "+00", "12345678901234567890",
        "18446744073709551614", "18446744073709551615", "18446744073709551616", "1844674407370955161",
        "a", "1a", "a1", " 1", "1 ", "+-1", "++1", "1+1", "١٢", "½", "4294967296", "\u{0}",
    ];
    for text in texts {
        assert_eq!(parse_number(text), text.parse::<u64>().ok(), "for {:?}", text);
    }
}

#[test]
fn numbers_of_one_digit_are_written_as_that_digit() {
    let digits = ["0", "1", "2", "3", "4", "5", "6", "7", "8", "9"];
    for (value, digit) in digits.iter().enumerate() {
        assert_eq!(format_number(value as u64), *digit);
    }
}

#[test]
fn numbers_are_written_without_sign_or_leading_zeros() {
    assert_eq!(format_number(10), "10");
    assert_eq!(format_number(404), "404");
    assert_eq!(format_number(1000), "1000");
    assert_eq!(format_number(9090), "9090");
    assert_eq!(format_number(65535), "65535");
    assert_eq!(format_number(u64::MAX), "18446744073709551615");
}

#[test]
fn written_numbers_read_back() {
    for value in [0, 1, 9, 10, 11, 99, 100, 101, 255, 256, 4294967295, 4294967296, u64::MAX - 1, u64::MAX] {
        assert_eq!(parse_number(&format_number(value)), Some(value));
        assert_eq!(format_number(value), value.to_string());
    }
}

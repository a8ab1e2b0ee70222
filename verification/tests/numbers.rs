use brownhttpd::numeral::{char_digit, parse_number};
use brownhttpd::text::{chars_of, decimal, push_decimal, same_text};

#[test]
fn decimal_numerals() {
    assert_eq!(decimal(0), "0");
    assert_eq!(decimal(5), "5");
    assert_eq!(decimal(10), "10");
    assert_eq!(decimal(404), "404");
    assert_eq!(decimal(7878), "7878");
    assert_eq!(decimal(1_000_000), "1000000");
    assert_eq!(decimal(u64::MAX), "18446744073709551615");
}

#[test]
fn decimal_is_appended() {
    let mut out = String::from("size ");
    push_decimal(&mut out, 1234);
    assert_eq!(out, "size 1234");
}

#[test]
fn digits_and_their_values() {
    assert_eq!(decimal(1234567890), "1234567890");
    assert_eq!(char_digit('0'), Some(0));
    assert_eq!(char_digit('9'), Some(9));
    assert_eq!(char_digit('a'), None);
    assert_eq!(char_digit('/'), None);
    assert_eq!(char_digit(':'), None);
    assert_eq!(char_digit('٣'), None);
}

#[test]
fn numbers_are_read() {
    assert_eq!(parse_number("7878", u32::MAX as u64), Some(7878));
    assert_eq!(parse_number("0", u32::MAX as u64), Some(0));
    assert_eq!(parse_number("0007", u32::MAX as u64), Some(7));
    assert_eq!(parse_number("+80", u32::MAX as u64), Some(80));
    assert_eq!(parse_number("4294967295", u32::MAX as u64), Some(4294967295));
    assert_eq!(parse_number("18446744073709551615", u64::MAX), Some(u64::MAX));
}

#[test]
fn what_is_no_number_is_refused() {
    assert_eq!(parse_number("", u32::MAX as u64), None);
    assert_eq!(parse_number("+", u32::MAX as u64), None);
    assert_eq!(parse_number("-", u32::MAX as u64), None);
    assert_eq!(parse_number("-1", u32::MAX as u64), None);
    assert_eq!(parse_number("++1", u32::MAX as u64), None);
    assert_eq!(parse_number("12a", u32::MAX as u64), None);
    assert_eq!(parse_number(" 12", u32::MAX as u64), None);
    assert_eq!(parse_number("12 ", u32::MAX as u64), None);
    assert_eq!(parse_number("1.5", u32::MAX as u64), None);
    assert_eq!(parse_number("http", u32::MAX as u64), None);
}

#[test]
fn numbers_over_the_limit_are_refused() {
    assert_eq!(parse_number("4294967296", u32::MAX as u64), None);
    assert_eq!(parse_number("99999999999999999999999", u32::MAX as u64), None);
    assert_eq!(parse_number("18446744073709551616", u64::MAX), None);
    assert_eq!(parse_number("9", 8), None);
    assert_eq!(parse_number("8", 8), Some(8));
    assert_eq!(parse_number("10", 9), None);
}

#[test]
fn reading_agrees_with_the_standard_library() {
    let samples = [
        "0", "1", "65535", "65536", "+7", "-7", "", "+", "007", "4294967295", "4294967296", "x",
        "1x", "١٢", "1_000",
    ];
    for text in samples {
        let ours = parse_number(text, u32::MAX as u64);
        let theirs = text.parse::<u32>().ok().map(|n| n as u64);
        assert_eq!(ours, theirs, "on {:?}", text);
    }
}

#[test]
fn texts_are_compared_by_character() {
    assert!(same_text("bash", "bash"));
    assert!(same_text("", ""));
    assert!(!same_text("bash", "Bash"));
    assert!(!same_text("bash", "bas"));
    assert!(!same_text("zsh", "fish"));
}

#[test]
fn characters_of_a_text() {
    assert_eq!(chars_of("aß€"), vec!['a', 'ß', '€']);
    assert_eq!(chars_of(""), Vec::<char>::new());
    assert_eq!(chars_of("hello").len(), 5);
}

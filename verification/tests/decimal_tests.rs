use solar_system::decimal::{append_decimal, append_padded_decimal, decimal_string, parse_number};

#[test]
fn zero_is_written_with_one_digit() {
    assert_eq!(decimal_string(0), "0");
}

#[test]
fn numbers_are_written_without_leading_zeros() {
    assert_eq!(decimal_string(7), "7");
    assert_eq!(decimal_string(10), "10");
    assert_eq!(decimal_string(150_000), "150000");
    assert_eq!(decimal_string(4_294_967_295), "4294967295");
}

#[test]
fn digits_are_appended_to_what_is_there() {
    let mut text = String::from("Comet ");
    append_decimal(&mut text, 42);
    assert_eq!(text, "Comet 42");
}

#[test]
fn padding_fills_with_zeros_on_the_left() {
    let mut text = String::new();
    append_padded_decimal(&mut text, 7, 2);
    text.push('|');
    append_padded_decimal(&mut text, 7, 4);
    text.push('|');
    append_padded_decimal(&mut text, 65_535, 4);
    text.push('|');
    append_padded_decimal(&mut text, 0, 0);
    assert_eq!(text, "07|0007|65535|0");
}

#[test]
fn a_numeral_is_read_as_its_number() {
    assert_eq!(parse_number("0"), Some(0));
    assert_eq!(parse_number("150000"), Some(150_000));
    assert_eq!(parse_number("4294967295"), Some(4_294_967_295));
}

#[test]
fn a_plus_sign_may_stand_in_front() {
    assert_eq!(parse_number("+5"), Some(5));
}

#[test]
fn leading_zeros_do_not_count() {
    assert_eq!(parse_number("007"), Some(7));
    assert_eq!(parse_number("00000000000000000000001"), Some(1));
}

#[test]
fn what_is_no_numeral_is_not_read() {
    assert_eq!(parse_number(""), None);
    assert_eq!(parse_number("+"), None);
    assert_eq!(parse_number("-1"), None);
    assert_eq!(parse_number("12a"), None);
    assert_eq!(parse_number("a12"), None);
    assert_eq!(parse_number(" 5"), None);
    assert_eq!(parse_number("5 "), None);
    assert_eq!(parse_number("1_000"), None);
    assert_eq!(parse_number("++5"), None);
    assert_eq!(parse_number("1.5"), None);
}

#[test]
fn a_number_of_more_than_32_bits_is_not_read() {
    assert_eq!(parse_number("4294967296"), None);
    assert_eq!(parse_number("99999999999999999999999999"), None);
}

#[test]
fn reading_agrees_with_the_standard_library() {
    for text in ["0", "42", "+42", "-42", "", "+", "4294967295", "4294967296", "0x10", "٣"] {
        assert_eq!(parse_number(text), text.parse::<u32>().ok(), "{}", text);
    }
}

#[test]
fn writing_agrees_with_the_standard_library() {
    for number in [0u32, 1, 9, 10, 99, 100, 12_345, 4_294_967_295] {
        assert_eq!(decimal_string(number), number.to_string());
    }
}

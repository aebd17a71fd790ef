use ticket_store::decimal::parse_u64;

#[test]
fn plain_numbers_are_read() {
    assert_eq!(parse_u64("0"), Some(0));
    assert_eq!(parse_u64("333"), Some(333));
    assert_eq!(parse_u64("1234567890"), Some(1_234_567_890));
}

#[test]
fn a_plus_sign_and_leading_zeros_are_accepted() {
    assert_eq!(parse_u64("+7"), Some(7));
    assert_eq!(parse_u64("007"), Some(7));
    assert_eq!(parse_u64("+000"), Some(0));
}

#[test]
fn the_largest_number_is_read_and_the_next_is_not() {
    assert_eq!(parse_u64("18446744073709551615"), Some(u64::MAX));
    assert_eq!(parse_u64("18446744073709551616"), None);
    assert_eq!(parse_u64("99999999999999999999"), None);
    assert_eq!(parse_u64("184467440737095516150"), None);
}

#[test]
fn anything_else_is_refused() {
    let refused = ["", "+", "-1", "12a", " 1", "1 ", "++1", "1+", "abc", "0x10", "1_000", "\u{663}"];
    for text in refused {
        assert_eq!(parse_u64(text), None);
    }
}

#[test]
fn reading_agrees_with_the_standard_library() {
    let texts = ["0", "+5", "42", "", "+", "-0", "18446744073709551615", "18446744073709551616", "4x"];
    for text in texts {
        assert_eq!(parse_u64(text), text.parse::<u64>().ok());
    }
}

use brightr::parse_brightness_value;

#[test]
fn parses_plain_number() {
    assert_eq!(parse_brightness_value(b"1060"), Some(1060));
}

#[test]
fn parses_newline_terminated_number() {
    assert_eq!(parse_brightness_value(b"42\n"), Some(42));
}

#[test]
fn parses_whitespace_padded_number() {
    assert_eq!(parse_brightness_value(b" \t 7 \r\n"), Some(7));
}

#[test]
fn parses_zero() {
    assert_eq!(parse_brightness_value(b"0\n"), Some(0));
}

#[test]
fn parses_leading_zeros() {
    assert_eq!(parse_brightness_value(b"007"), Some(7));
}

#[test]
fn parses_largest_value() {
    assert_eq!(parse_brightness_value(b"4294967295\n"), Some(u32::MAX));
}

#[test]
fn rejects_value_too_large() {
    assert_eq!(parse_brightness_value(b"4294967296"), None);
}

#[test]
fn rejects_much_too_large() {
    assert_eq!(parse_brightness_value(b"99999999999999999999"), None);
}

#[test]
fn rejects_empty() {
    assert_eq!(parse_brightness_value(b""), None);
}

#[test]
fn rejects_only_whitespace() {
    assert_eq!(parse_brightness_value(b" \n\t"), None);
}

#[test]
fn rejects_trailing_garbage() {
    assert_eq!(parse_brightness_value(b"12a"), None);
}

#[test]
fn rejects_negative() {
    assert_eq!(parse_brightness_value(b"-5"), None);
}

#[test]
fn rejects_plus_sign() {
    assert_eq!(parse_brightness_value(b"+5"), None);
}

#[test]
fn rejects_inner_whitespace() {
    assert_eq!(parse_brightness_value(b"4 2"), None);
}

#[test]
fn rejects_non_ascii() {
    assert_eq!(parse_brightness_value(&[0xC3, 0xA9]), None);
}

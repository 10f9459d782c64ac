use initiative_tracker::number::{format_i32, parse_i32};

#[test]
fn parses_like_std() {
    for text in ["15", "+5", "-0", "007", "-2147483648", "2147483647", "2147483648", "-2147483649", "", "+", "-", "abc", "1a", " 1", "99999999999999"] {
        assert_eq!(parse_i32(text), text.parse::<i32>().ok(), "{text:?}");
    }
}

#[test]
fn parse_exact_values() {
    assert_eq!(parse_i32("15"), Some(15));
    assert_eq!(parse_i32("-42"), Some(-42));
    assert_eq!(parse_i32("x"), None);
}

#[test]
fn formats_like_std() {
    for n in [0, 7, 10, -1, -42, 2147483647, -2147483648, 1000000] {
        assert_eq!(format_i32(n), n.to_string());
    }
    assert_eq!(format_i32(-42), "-42");
}

#[test]
fn numeric_round_trip() {
    for n in [0, 15, -3, i32::MAX, i32::MIN] {
        assert_eq!(parse_i32(&format_i32(n)), Some(n));
    }
}

use infbot::text::{
    chars_of, i64_to_decimal, parse_u32, parse_u64, str_contains, str_eq, trim_chars,
    u64_to_decimal, IntErrorKind,
};

fn s(v: Vec<char>) -> String {
    v.into_iter().collect()
}

#[test]
fn decimal_rendering_matches_display() {
    for n in [0u64, 7, 10, 99, 100, 12345, u64::MAX] {
        assert_eq!(u64_to_decimal(n), n.to_string());
    }
    for n in [0i64, -1, 42, -9000, i64::MIN, i64::MAX] {
        assert_eq!(i64_to_decimal(n), n.to_string());
    }
}

#[test]
fn parse_u64_accepts_what_std_accepts() {
    assert_eq!(parse_u64("0"), Ok(0));
    assert_eq!(parse_u64("+17"), Ok(17));
    assert_eq!(parse_u64("007"), Ok(7));
    assert_eq!(parse_u64("18446744073709551615"), Ok(u64::MAX));
    assert_eq!(parse_u64("175928847299117063"), Ok(175928847299117063));
}

#[test]
fn parse_u64_errors_match_std() {
    assert_eq!(parse_u64(""), Err(IntErrorKind::Empty));
    assert_eq!(parse_u64("+"), Err(IntErrorKind::InvalidDigit));
    assert_eq!(parse_u64("-"), Err(IntErrorKind::InvalidDigit));
    assert_eq!(parse_u64("-5"), Err(IntErrorKind::InvalidDigit));
    assert_eq!(parse_u64("12a"), Err(IntErrorKind::InvalidDigit));
    assert_eq!(parse_u64(" 12"), Err(IntErrorKind::InvalidDigit));
    assert_eq!(parse_u64("18446744073709551616"), Err(IntErrorKind::PosOverflow));
    // The first problem met from the left decides the error.
    assert_eq!(parse_u64("99999999999999999999x"), Err(IntErrorKind::PosOverflow));
    assert_eq!(parse_u64("1x99999999999999999999"), Err(IntErrorKind::InvalidDigit));
    for input in ["", "+", "-", "-5", "12a", "18446744073709551616", "99999999999999999999x", "1x9"] {
        let ours = parse_u64(input).map_err(|e| e.description().to_string());
        let std = input.parse::<u64>().map_err(|e| e.to_string());
        assert_eq!(ours, std, "input {input:?}");
    }
}

#[test]
fn parse_u32_bounds() {
    assert_eq!(parse_u32("4294967295"), Ok(u32::MAX));
    assert_eq!(parse_u32("4294967296"), Err(IntErrorKind::PosOverflow));
    assert_eq!(parse_u32("96000"), Ok(96000));
}

#[test]
fn parse_roundtrips_rendering() {
    for n in [0u64, 1, 9, 10, 8000, 384000, 1_000_000_007, u64::MAX] {
        assert_eq!(parse_u64(&u64_to_decimal(n)), Ok(n));
    }
}

#[test]
fn trim_matches_std_trim() {
    for input in ["  42 ", "\t\n x y \r", "", "   ", "\u{3000}abc\u{2009}", "no-space"] {
        assert_eq!(s(trim_chars(input)), input.trim());
    }
}

#[test]
fn equality_and_substrings() {
    assert!(str_eq("abc", "abc"));
    assert!(!str_eq("abc", "abd"));
    assert!(!str_eq("abc", "ab"));
    assert!(str_contains("auto voice channels", "voice"));
    assert!(str_contains("anything", ""));
    assert!(!str_contains("audit", "auto"));
    assert!(!str_contains("ab", "abc"));
    assert_eq!(chars_of("h\u{e9}llo"), vec!['h', '\u{e9}', 'l', 'l', 'o']);
}

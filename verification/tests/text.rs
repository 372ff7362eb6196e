use ahut_dorm_sign::text::{
    id_hyphenated, parse_i64, parse_u8, parse_unsigned, push_decimal, push_signed_decimal,
    push_zero_padded, split_char,
    str_contains, str_is_blank, trim_str, u8_to_text,
};

#[test]
fn unsigned_numbers_parse_as_str_parse_does() {
    assert_eq!(parse_unsigned("3000", u64::MAX), Some(3000));
    assert_eq!(parse_unsigned("+16", u64::MAX), Some(16));
    assert_eq!(parse_unsigned("18446744073709551615", u64::MAX), Some(u64::MAX));
    assert_eq!(parse_unsigned("18446744073709551616", u64::MAX), None);
    assert_eq!(parse_unsigned("4294967296", u32::MAX as u64), None);
    assert_eq!(parse_unsigned("", u64::MAX), None);
    assert_eq!(parse_unsigned("+", u64::MAX), None);
    assert_eq!(parse_unsigned("-1", u64::MAX), None);
    assert_eq!(parse_unsigned(" 1", u64::MAX), None);
    assert_eq!(parse_unsigned("1_000", u64::MAX), None);
    assert_eq!(parse_u8("255"), Some(255));
    assert_eq!(parse_u8("256"), None);
}

#[test]
fn signed_numbers_parse_as_str_parse_does() {
    assert_eq!(parse_i64("300"), Some(300));
    assert_eq!(parse_i64("-300"), Some(-300));
    assert_eq!(parse_i64("+7"), Some(7));
    assert_eq!(parse_i64("-9223372036854775808"), Some(i64::MIN));
    assert_eq!(parse_i64("9223372036854775807"), Some(i64::MAX));
    assert_eq!(parse_i64("9223372036854775808"), None);
    assert_eq!(parse_i64("-"), None);
    assert_eq!(parse_i64("-+1"), None);
    assert_eq!(parse_i64("1.5"), None);
    for s in ["0", "-0", "+0", "42", "-42", "x", "", "--1"] {
        assert_eq!(parse_i64(s), s.parse::<i64>().ok(), "{s}");
        assert_eq!(parse_unsigned(s, u64::MAX), s.parse::<u64>().ok(), "{s}");
    }
}

#[test]
fn contains_finds_runs_anywhere() {
    assert!(str_contains("Bad credentials!", "Bad credentials"));
    assert!(str_contains("用户已完成签到了", "已完成签到"));
    assert!(str_contains("abc", ""));
    assert!(!str_contains("ab", "abc"));
    assert!(!str_contains("bad credentials", "Bad credentials"));
}

#[test]
fn trimming_and_blankness_follow_unicode_white_space() {
    assert_eq!(trim_str("\u{3000} a b \n"), "a b");
    assert!(str_is_blank(" \t\u{2003}"));
    assert!(!str_is_blank(" x "));
}

#[test]
fn split_keeps_empty_pieces() {
    assert_eq!(split_char("a,,b,", ','), vec!["a", "", "b", ""]);
    assert_eq!(split_char("", ','), vec![""]);
}

#[test]
fn numbers_print_as_display_does() {
    assert_eq!(u8_to_text(0), "0");
    assert_eq!(u8_to_text(207), "207");
    let mut s = String::from("x");
    push_zero_padded(&mut s, 7, 4);
    assert_eq!(s, "x0007");
    let mut t = String::new();
    push_zero_padded(&mut t, 123456, 4);
    assert_eq!(t, "123456");
}

#[test]
fn identifiers_print_hyphenated_like_uuid() {
    let id: u128 = 0x0123456789abcdef0fedcba987654321;
    assert_eq!(id_hyphenated(id), "01234567-89ab-cdef-0fed-cba987654321");
    assert_eq!(id_hyphenated(id), uuid::Uuid::from_u128(id).to_string());
    assert_eq!(id_hyphenated(0), "00000000-0000-0000-0000-000000000000");
}

#[test]
fn printed_numbers_read_back() {
    for v in [0i64, 7, -7, 300, i64::MIN, i64::MAX] {
        let mut s = String::new();
        push_signed_decimal(&mut s, v);
        assert_eq!(s, v.to_string());
        assert_eq!(parse_i64(&s), Some(v));
    }
    for n in [0u64, 9, 10, u64::MAX] {
        let mut s = String::new();
        push_decimal(&mut s, n);
        assert_eq!(parse_unsigned(&s, u64::MAX), Some(n));
    }
}

use nerdterm::text::{
    char_list, clone_opt, is_whitespace, parse_number, position_of, push_decimal, same_text, trim,
};

#[test]
fn white_space_is_unicodes() {
    for n in 0..=0x10ffffu32 {
        if let Some(c) = char::from_u32(n) {
            assert_eq!(is_whitespace(c), c.is_whitespace(), "U+{n:04X}");
        }
    }
}

#[test]
fn trimming_is_that_of_strings() {
    for s in ["", " ", "  alice  ", "\t\u{a0}x y\u{3000}\n", "plain", "\u{200b}z"] {
        assert_eq!(trim(s), s.trim());
    }
}

#[test]
fn numbers_read_as_std_reads_them() {
    let cases = [
        "", "+", "-", "0", "+0", "-1", "23", "+23", "++23", "65535", "65536", "00023", "2 3",
        " 23", "23 ", "99999999999999999999999", "１", "not-a-number",
    ];
    for s in cases {
        let expected: Option<u64> = s.parse::<u16>().ok().map(u64::from);
        assert_eq!(parse_number(s, 65535), expected, "{s:?}");
    }
    assert_eq!(parse_number("18446744073709551615", u64::MAX), Some(u64::MAX));
    assert_eq!(parse_number("18446744073709551616", u64::MAX), None);
    assert_eq!(parse_number("7", 3), None);
}

#[test]
fn numbers_are_printed_and_read_back() {
    for n in [0, 7, 10, 99, 100, 65535, 1_000_000, u64::MAX] {
        let mut out = String::from("n=");
        push_decimal(&mut out, n);
        assert_eq!(out, format!("n={n}"));
        assert_eq!(parse_number(&out[2..], u64::MAX), Some(n));
    }
}

#[test]
fn texts_are_compared_and_found_by_their_characters() {
    assert!(same_text("über", "über"));
    assert!(!same_text("a", "b"));
    assert!(!same_text("a", "ab"));
    assert_eq!(char_list("aü€"), ['a', 'ü', '€']);
    let list = vec!["x".to_string(), "y".to_string(), "x".to_string()];
    assert_eq!(position_of(&list, "x"), Some(0));
    assert_eq!(position_of(&list, "y"), Some(1));
    assert_eq!(position_of(&list, "z"), None);
    assert_eq!(clone_opt(&Some("t".to_string())).as_deref(), Some("t"));
    assert_eq!(clone_opt(&None), None);
}

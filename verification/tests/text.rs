use cadenza_shell::battery::sysfs::sanitize;
use cadenza_shell::network::scan::ssid_from_bytes;
use cadenza_shell::text::{
    eq_ignore_ascii_case, format_decimal, parse_i64, parse_u32, parse_u64, push_zero_padded,
    same_text, trim,
};

#[test]
fn trimming_removes_unicode_whitespace_at_both_ends() {
    assert_eq!(trim("  Charging\n"), "Charging");
    assert_eq!(trim("\u{2003}x y\t"), "x y");
    assert_eq!(trim("   "), "");
    assert_eq!(trim(""), "");
}

#[test]
fn ascii_case_is_ignored_only_for_ascii() {
    assert!(eq_ignore_ascii_case("Battery", "bATTERY"));
    assert!(!eq_ignore_ascii_case("Battery", "Batteries"));
    assert!(!eq_ignore_ascii_case("É", "é"));
    assert!(same_text("abc", "abc"));
    assert!(!same_text("abc", "abd"));
}

#[test]
fn numbers_parse_as_the_standard_library_does() {
    assert_eq!(parse_u64("12345"), Some(12345));
    assert_eq!(parse_u64("+7"), Some(7));
    assert_eq!(parse_u64("18446744073709551615"), Some(u64::MAX));
    assert_eq!(parse_u64("18446744073709551616"), None);
    assert_eq!(parse_u64("-1"), None);
    assert_eq!(parse_u64(""), None);
    assert_eq!(parse_u64("+"), None);
    assert_eq!(parse_u64("12a"), None);
    assert_eq!(parse_i64("-9223372036854775808"), Some(i64::MIN));
    assert_eq!(parse_i64("9223372036854775807"), Some(i64::MAX));
    assert_eq!(parse_i64("9223372036854775808"), None);
    assert_eq!(parse_i64("-42"), Some(-42));
    assert_eq!(parse_i64("-"), None);
    assert_eq!(parse_u32("4294967295"), Some(u32::MAX));
    assert_eq!(parse_u32("4294967296"), None);
    assert_eq!(parse_u32(" 5"), None);
}

#[test]
fn decimals_and_padding_are_written_as_format_does() {
    assert_eq!(format_decimal(0), "0");
    assert_eq!(format_decimal(1_234_567), "1234567");
    let mut s = String::new();
    push_zero_padded(&mut s, 42, 6);
    assert_eq!(s, format!("{:06}", 42));
    let mut t = String::from("x");
    push_zero_padded(&mut t, 1_234_567, 6);
    assert_eq!(t, "x1234567");
}

#[test]
fn character_classes_follow_unicode() {
    assert_eq!(trim("\u{a0}a\u{a0}"), "a");
    assert_eq!(sanitize("é-ß.x"), "é-ß_x");
    assert_eq!(sanitize("a!b"), "a_b");
    assert_eq!(ssid_from_bytes(&[0x61, 0xff, 0x62]), Some("a\u{fffd}b".to_string()));
}

#[test]
fn trimming_agrees_with_the_standard_library_on_every_char() {
    for c in (0u32..=0x10FFFF).filter_map(char::from_u32) {
        let text = format!("{c}x{c}");
        let expected = if c.is_whitespace() { "x".to_string() } else { text.clone() };
        assert_eq!(trim(&text), expected, "char U+{:04X}", c as u32);
    }
}

#[test]
fn ascii_device_keys_keep_letters_and_digits() {
    assert_eq!(sanitize(" SN 12/34 "), "SN_12_34");
    for c in (0u8..128).map(char::from) {
        let expected = if c.is_ascii_alphanumeric() || c == '-' { c } else { '_' };
        let text = format!("a{c}b");
        assert_eq!(sanitize(&text), format!("a{expected}b"), "char {c:?}");
    }
}

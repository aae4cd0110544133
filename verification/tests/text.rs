use flashthing::text;

#[test]
fn numbers_are_spelled_as_usual() {
    let mut shown = String::new();
    text::push_decimal(&mut shown, 0);
    shown.push(' ');
    text::push_decimal(&mut shown, 18446744073709551615);
    shown.push(' ');
    text::push_hex(&mut shown, 0xbeef, true);
    shown.push(' ');
    text::push_hex(&mut shown, 0xbeef, false);
    shown.push(' ');
    text::push_hex_padded(&mut shown, 0x1f, 8);
    assert_eq!(shown, "0 18446744073709551615 0xBEEF 0xbeef 0000001f");
}

#[test]
fn numbers_are_read_as_usual() {
    assert_eq!(text::parse_number("117440512", 10), Some(117440512));
    assert_eq!(text::parse_number("+7", 10), Some(7));
    assert_eq!(text::parse_number("fF", 16), Some(255));
    assert_eq!(text::parse_number("", 10), None);
    assert_eq!(text::parse_number("+", 10), None);
    assert_eq!(text::parse_number("-1", 10), None);
    assert_eq!(text::parse_number("99999999999999999999999", 10), None);
}

#[test]
fn trimming_knows_unicode_white_space() {
    assert_eq!(text::trim(" \t\u{3000}a b\u{85}\n"), "a b");
    assert_eq!(text::trim("   "), "");
    assert_eq!(text::trim("\u{200b}x"), "\u{200b}x");
}

#[test]
fn prefixes_and_parts_are_found() {
    assert!(text::starts_with("amlmmc key", "amlmmc"));
    assert!(!text::starts_with("aml", "amlmmc"));
    assert_eq!(text::strip_prefix("./a", "./").as_deref(), Some("a"));
    assert_eq!(text::strip_prefix("a", "./"), None);
    assert!(text::contains("abcabd", "abd"));
    assert!(!text::contains("abcabc", "abd"));
    assert!(text::contains("x", ""));
}

#[test]
fn cuts_fall_between_characters() {
    let chars = text::chars_of("a\u{e9}\u{20ac}z");
    assert_eq!(text::find_cut(&chars, 0), Some(0));
    assert_eq!(text::find_cut(&chars, 1), Some(1));
    assert_eq!(text::find_cut(&chars, 2), None);
    assert_eq!(text::find_cut(&chars, 3), Some(2));
    assert_eq!(text::find_cut(&chars, 6), Some(3));
    assert_eq!(text::find_cut(&chars, 7), Some(4));
    assert_eq!(text::find_cut(&chars, 8), None);
    assert!(text::width_up_to(&chars, 7));
    assert!(!text::width_up_to(&chars, 6));
}

use sidecar_supervisor::platform::Platform;
use sidecar_supervisor::text::{
    blank, blank_char, chars_of, ends_with, parse_number, push_decimal, same_chars, string_of,
};

fn chars(text: &str) -> Vec<char> {
    text.chars().collect()
}

fn decimal(n: u32) -> String {
    let mut out = Vec::new();
    push_decimal(&mut out, n);
    string_of(&out)
}

#[test]
fn text_and_characters_convert_both_ways() {
    assert_eq!(chars_of("añ→b"), vec!['a', 'ñ', '→', 'b']);
    assert_eq!(chars_of(""), Vec::<char>::new());
    assert_eq!(string_of(&['a', 'ñ', '→', 'b']), "añ→b");
    assert_eq!(string_of(&[]), "");
    assert!(same_chars(&chars("abc"), &chars("abc")));
    assert!(same_chars(&[], &[]));
    assert!(!same_chars(&chars("abc"), &chars("abd")));
    assert!(!same_chars(&chars("abc"), &chars("ab")));
}

#[test]
fn numbers_are_written_in_decimal() {
    assert_eq!(decimal(0), "0");
    assert_eq!(decimal(7), "7");
    assert_eq!(decimal(10), "10");
    assert_eq!(decimal(8778), "8778");
    assert_eq!(decimal(65535), "65535");
    assert_eq!(decimal(1000000), "1000000");
    assert_eq!(decimal(u32::MAX), "4294967295");
    let mut out = chars("port ");
    push_decimal(&mut out, 42);
    assert_eq!(string_of(&out), "port 42");
}

#[test]
fn numbers_are_read_from_decimal() {
    assert_eq!(parse_number(&chars("0"), 65535), Some(0));
    assert_eq!(parse_number(&chars("8778"), 65535), Some(8778));
    assert_eq!(parse_number(&chars("+8778"), 65535), Some(8778));
    assert_eq!(parse_number(&chars("000123"), 65535), Some(123));
    assert_eq!(parse_number(&chars("65535"), 65535), Some(65535));
    assert_eq!(parse_number(&chars("65536"), 65535), None);
    assert_eq!(parse_number(&chars("4294967295"), u32::MAX), Some(u32::MAX));
    assert_eq!(parse_number(&chars("4294967296"), u32::MAX), None);
    assert_eq!(parse_number(&chars("99999999999999999999999999"), u32::MAX), None);
    assert_eq!(parse_number(&chars("5"), 4), None);
    for text in ["", "+", "-", "-1", "++1", "1+", "1 ", " 1", "1.0", "1e3", "١٢٣", "12a"] {
        assert_eq!(parse_number(&chars(text), u32::MAX), None);
    }
}

#[test]
fn blank_characters_are_those_of_unicode() {
    for c in [' ', '\t', '\n', '\r', '\u{0B}', '\u{0C}', '\u{85}', '\u{A0}', '\u{1680}', '\u{2000}',
        '\u{200A}', '\u{2028}', '\u{2029}', '\u{202F}', '\u{205F}', '\u{3000}']
    {
        assert!(blank_char(c));
    }
    for c in ['a', '0', '_', '\u{08}', '\u{0E}', '\u{1F}', '\u{200B}', '\u{FEFF}', '\u{180E}'] {
        assert!(!blank_char(c));
    }
    let mut code = 0u32;
    while code <= 0x11000 {
        if let Some(c) = char::from_u32(code) {
            assert_eq!(blank_char(c), c.is_whitespace());
        }
        code += 1;
    }
    assert!(blank(&chars(" \t\r\n")));
    assert!(blank(&[]));
    assert!(!blank(&chars("  x ")));
}

#[test]
fn endings_are_told_from_what_merely_occurs() {
    assert!(ends_with(&chars("127.0.0.1:8778"), &chars(":8778")));
    assert!(ends_with(&chars("[::1]:80"), &chars(":80")));
    assert!(ends_with(&chars(":80"), &chars(":80")));
    assert!(ends_with(&chars("abc"), &[]));
    assert!(ends_with(&[], &[]));
    assert!(!ends_with(&chars("0.0.0.0:8080"), &chars(":80")));
    assert!(!ends_with(&chars("0.0.0.0:87780"), &chars(":8778")));
    assert!(!ends_with(&chars("80"), &chars(":80")));
    assert!(!ends_with(&[], &chars(":80")));
    assert!(!ends_with(&chars(":80 "), &chars(":80")));
}

#[test]
fn platforms_differ_in_separators_and_in_what_they_need() {
    assert_eq!(Platform::Windows.path_separator(), '\\');
    assert_eq!(Platform::Unix.path_separator(), '/');
    assert_eq!(Platform::Windows.list_separator(), ';');
    assert_eq!(Platform::Unix.list_separator(), ':');
    assert!(Platform::Windows.reclaims_ports());
    assert!(!Platform::Unix.reclaims_ports());
    assert!(Platform::Windows.confines_children());
    assert!(!Platform::Unix.confines_children());
    assert!(Platform::Windows.has_console_windows());
    assert!(!Platform::Unix.has_console_windows());
}

#[test]
fn numbers_are_read_as_the_standard_library_reads_them() {
    for text in [
        "0", "1", "+1", "+0", "00", "65535", "65536", "+65535", "8778", "0008778", "4294967295",
        "4294967296", "", "+", "-", "-0", "+-1", "1_000", " 1", "1\n", "١", "1.5", "0x10", "１２",
    ] {
        let expected16 = text.parse::<u16>().ok().map(u32::from);
        assert_eq!(parse_number(&chars(text), 65535), expected16);
        let expected32 = text.parse::<u32>().ok();
        assert_eq!(parse_number(&chars(text), u32::MAX), expected32);
    }
}

use msi_center::text::{
    chars_of, contains_keyword, format_hex_u16, format_u8, is_space_char, lower_char,
    matches_exactly, matches_keyword, parse_decimal, parse_i32, parse_u8, trim_bounds,
};

fn chars(text: &str) -> Vec<char> {
    text.chars().collect()
}

fn whole_u8(text: &str) -> Option<u8> {
    let c = chars(text);
    parse_u8(&c, 0, c.len())
}

fn whole_i32(text: &str) -> Option<i32> {
    let c = chars(text);
    parse_i32(&c, 0, c.len())
}

#[test]
fn characters_of_a_string() {
    assert_eq!(chars_of(""), Vec::<char>::new());
    assert_eq!(chars_of("a:b"), vec!['a', ':', 'b']);
    assert_eq!(chars_of("é°C"), vec!['é', '°', 'C']);
}

#[test]
fn lower_case_of_ascii_capitals_only() {
    assert_eq!(lower_char('A'), 'a');
    assert_eq!(lower_char('Z'), 'z');
    assert_eq!(lower_char('m'), 'm');
    assert_eq!(lower_char('@'), '@');
    assert_eq!(lower_char('['), '[');
    assert_eq!(lower_char('5'), '5');
    assert_eq!(lower_char('É'), 'É');
    for code in 0..128u8 {
        let c = code as char;
        assert_eq!(lower_char(c), c.to_ascii_lowercase());
    }
}

#[test]
fn keywords_without_regard_to_case() {
    assert!(matches_keyword(&chars("Turbo"), "turbo"));
    assert!(matches_keyword(&chars("turbo"), "turbo"));
    assert!(!matches_keyword(&chars("turbo "), "turbo"));
    assert!(!matches_keyword(&chars("turb"), "turbo"));
    assert!(matches_keyword(&chars(""), ""));
    assert!(!matches_keyword(&chars("a"), ""));
}

#[test]
fn exact_matches() {
    let text = chars("  coretemp\n");
    assert!(matches_exactly(&text, 2, 10, "coretemp"));
    assert!(!matches_exactly(&text, 1, 10, "coretemp"));
    assert!(!matches_exactly(&text, 2, 9, "coretemp"));
    assert!(!matches_exactly(&chars("Coretemp"), 0, 8, "coretemp"));
    assert!(matches_exactly(&text, 4, 4, ""));
}

#[test]
fn substring_search() {
    assert!(contains_keyword(&chars("Micro-Star International"), "micro-star"));
    assert!(contains_keyword(&chars("xxMSIxx"), "msi"));
    assert!(contains_keyword(&chars("msi"), "msi"));
    assert!(contains_keyword(&chars("mmsi"), "msi"));
    assert!(contains_keyword(&chars("msmsi"), "msi"));
    assert!(!contains_keyword(&chars("ms"), "msi"));
    assert!(!contains_keyword(&chars("m-s-i"), "msi"));
    assert!(contains_keyword(&chars(""), ""));
    assert!(contains_keyword(&chars("abc"), ""));
    assert!(!contains_keyword(&chars(""), "a"));
}

#[test]
fn spaces() {
    for c in [' ', '\t', '\n', '\r', '\x0b', '\x0c'] {
        assert!(is_space_char(c));
    }
    for c in ['a', '0', '\0', '\x08', '\x0e', '\u{a0}', '_'] {
        assert!(!is_space_char(c));
    }
}

#[test]
fn trimming() {
    assert_eq!(trim_bounds(&chars("  ab \n")), (2, 4));
    assert_eq!(trim_bounds(&chars("ab")), (0, 2));
    assert_eq!(trim_bounds(&chars("a b")), (0, 3));
    assert_eq!(trim_bounds(&chars("")), (0, 0));
    assert_eq!(trim_bounds(&chars("   ")), (3, 3));
    for text in ["", " x", "x ", "\t\r\n12 34\n\n", "none", " \x0b\x0c "] {
        let c = chars(text);
        let (start, end) = trim_bounds(&c);
        let trimmed: String = c[start..end].iter().collect();
        assert_eq!(trimmed, text.trim());
    }
}

#[test]
fn bytes_in_decimal() {
    for value in 0..=255u8 {
        assert_eq!(whole_u8(&value.to_string()), Some(value));
        assert_eq!(whole_u8(&format!("+{}", value)), Some(value));
        assert_eq!(whole_u8(&format!("000{}", value)), Some(value));
    }
    for text in ["", "+", "-", "-0", "256", "1000", "99999999999999999999", "1a", "a1", " 1",
        "1 ", "++1", "+-1", "1+", "１"]
    {
        assert_eq!(whole_u8(text), None, "{:?}", text);
        assert_eq!(whole_u8(text), text.parse::<u8>().ok(), "{:?}", text);
    }
}

#[test]
fn integers_in_decimal() {
    for text in [
        "0", "-0", "+0", "1", "-1", "47900", "-47900", "2147483647", "-2147483648",
        "2147483648", "-2147483649", "", "+", "-", "--1", "+-1", "-+1", "12x", "x12", " 1",
        "00000000000000000000012", "-00000000000000000000012", "99999999999999999999",
    ] {
        assert_eq!(whole_i32(text), text.parse::<i32>().ok(), "{:?}", text);
    }
    assert_eq!(whole_i32("-2147483648"), Some(i32::MIN));
    assert_eq!(whole_i32("2147483647"), Some(i32::MAX));
}

#[test]
fn decimal_within_bounds_and_limit() {
    let text = chars("x123y");
    assert_eq!(parse_decimal(&text, 1, 4, 1000), Some(123));
    assert_eq!(parse_decimal(&text, 1, 4, 123), Some(123));
    assert_eq!(parse_decimal(&text, 1, 4, 122), None);
    assert_eq!(parse_decimal(&text, 1, 3, 100), Some(12));
    assert_eq!(parse_decimal(&text, 0, 4, 1000), None);
    assert_eq!(parse_decimal(&text, 1, 5, 1000), None);
    assert_eq!(parse_decimal(&text, 2, 2, 1000), None);
    assert_eq!(parse_decimal(&chars("4294967295"), 0, 10, 0xFFFF_FFFF), Some(4294967295));
    assert_eq!(parse_decimal(&chars("4294967296"), 0, 10, 0xFFFF_FFFF), None);
}

#[test]
fn decimal_and_hexadecimal_digits() {
    for value in 0..=255u8 {
        assert_eq!(format_u8(value), value.to_string());
    }
    for value in 0..=65535u16 {
        assert_eq!(format_hex_u16(value), format!("{:x}", value));
    }
}

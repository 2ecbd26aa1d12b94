use deepseek_harness_desktop::text::{decimal_string, is_space_char, parse_u16_str, str_eq, trim};

const SAMPLES: &[&str] = &[
    "", " ", "0", "7", "3080", "+3080", "-1", "+", "-", "65535", "65536", "99999", "0012",
    "00000000000000000001", "12a", " 12", "12 ", "+-1", "++1", "٣", "1_000", "4294967296",
];

#[test]
fn trim_strips_unicode_whitespace() {
    assert_eq!(trim("  8090 \n"), "8090");
    assert_eq!(trim("\u{3000}x y\u{a0}\u{2028}"), "x y");
    assert_eq!(trim("\t\r\n "), "");
    assert_eq!(trim(""), "");
    assert_eq!(trim("dark"), "dark");
}

#[test]
fn trim_matches_std() {
    let cases = [" a ", "\u{85}b\u{1680}", "\u{200b}c", "\u{feff}d", " \u{2009}e\u{202f}", "f\u{205f}"];
    for s in cases.iter().chain(SAMPLES.iter()) {
        assert_eq!(trim(s), s.trim(), "{:?}", s);
    }
}

#[test]
fn whitespace_classification_matches_std() {
    for u in 0u32..0x3100 {
        if let Some(c) = char::from_u32(u) {
            assert_eq!(is_space_char(c), c.is_whitespace(), "{:#x}", u);
        }
    }
}

#[test]
fn str_eq_compares_characters() {
    assert!(str_eq("localhost", "localhost"));
    assert!(!str_eq("localhost", "localhos"));
    assert!(!str_eq("http", "HTTP"));
    assert!(str_eq("", ""));
    assert!(str_eq("深色", "深色"));
}

#[test]
fn decimal_string_matches_to_string() {
    for n in [0u16, 1, 9, 10, 99, 100, 3080, 8090, 65535] {
        assert_eq!(decimal_string(n), n.to_string());
    }
    for n in 0..=u16::MAX {
        assert_eq!(decimal_string(n), n.to_string());
    }
}

#[test]
fn parse_u16_matches_std() {
    for s in SAMPLES {
        assert_eq!(parse_u16_str(s), s.parse::<u16>().ok(), "{:?}", s);
    }
    assert_eq!(parse_u16_str("3080"), Some(3080));
    assert_eq!(parse_u16_str("+42"), Some(42));
    assert_eq!(parse_u16_str("65536"), None);
    assert_eq!(parse_u16_str("-0"), None);
}

#[test]
fn decimal_text_parses_back() {
    for n in 0..=u16::MAX {
        assert_eq!(parse_u16_str(&decimal_string(n)), Some(n));
    }
}

use tuikk::text::{decimal_string, has_prefix, parse_usize, split_at_only, trim, white_space};

#[test]
fn trim_matches_std() {
    let cases = [
        "", "   ", "abc", "  abc  ", "\t\n a b \r\n", "\u{3000}x\u{2009}", "\u{85}y\u{a0}",
        "x\u{200b}", " \u{1680}z",
    ];
    for c in cases {
        assert_eq!(trim(c), c.trim(), "input {:?}", c);
    }
}

#[test]
fn white_space_matches_std() {
    for code in 0u32..0x3100 {
        if let Some(c) = char::from_u32(code) {
            assert_eq!(white_space(c), c.is_whitespace(), "code {:x}", code);
        }
    }
}

#[test]
fn parse_usize_matches_std() {
    let cases = [
        "", "0", "007", "+5", "+", "-5", "-0", "12a", " 1", "1 ", "++1", "18446744073709551615",
        "18446744073709551616", "99999999999999999999999", "\u{661}",
    ];
    for c in cases {
        assert_eq!(parse_usize(c), c.parse::<usize>().ok(), "input {:?}", c);
    }
}

#[test]
fn decimal_string_matches_to_string() {
    for n in [0u64, 7, 10, 99, 100, 65535, 1234567890, u64::MAX] {
        assert_eq!(decimal_string(n), n.to_string());
    }
}

#[test]
fn split_at_only_cases() {
    assert_eq!(split_at_only("1.41", '.'), Some(("1", "41")));
    assert_eq!(split_at_only(".", '.'), Some(("", "")));
    assert_eq!(split_at_only("141", '.'), None);
    assert_eq!(split_at_only("1.4.1", '.'), None);
    assert_eq!(split_at_only("", '.'), None);
}

#[test]
fn has_prefix_cases() {
    assert!(has_prefix("tcp://host", "tcp://"));
    assert!(has_prefix("abc", ""));
    assert!(!has_prefix("tcp:/", "tcp://"));
    assert!(!has_prefix("TCP://x", "tcp://"));
}

#[test]
fn trim_is_idempotent() {
    for c in ["  a  ", "\u{3000}b\u{85}", "", " "] {
        assert_eq!(trim(trim(c)), trim(c));
    }
}

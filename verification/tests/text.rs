use storz_rs::text::{
    contains, decimal_text, fixed_width_text, parse_unsigned, split, strip_prefix, trim,
    trim_end_matches,
};

#[test]
fn numbers_as_text_and_back() {
    for n in [0u64, 7, 10, 99, 100, 65535, 4294967295, u64::MAX] {
        assert_eq!(decimal_text(n), n.to_string());
        assert_eq!(parse_unsigned(&decimal_text(n), u64::MAX), Some(n));
    }
    assert_eq!(fixed_width_text(0xab, 16, 2), "AB");
    assert_eq!(fixed_width_text(0x1ab, 16, 4), "01AB");
    assert_eq!(fixed_width_text(5, 2, 8), "00000101");
}

#[test]
fn numbers_are_read_as_by_the_standard_library() {
    for text in [
        "", "+", "-", "0", "00", "+7", "++7", "-7", " 7", "7 ", "65535", "65536", "000065535", "1e3",
        "9999999999999999999999", "٣", "0x10", "7_000",
    ] {
        assert_eq!(parse_unsigned(text, 0xffff), text.parse::<u16>().ok().map(u64::from), "{text}");
        assert_eq!(parse_unsigned(text, 0xffff_ffff), text.parse::<u32>().ok().map(u64::from));
        assert_eq!(parse_unsigned(text, u64::MAX), text.parse::<u64>().ok());
    }
}

#[test]
fn white_space_is_that_of_the_standard_library() {
    for c in (0..0x11_0000u32).filter_map(char::from_u32) {
        let text = format!("{c}x{c}");
        assert_eq!(trim(&text), text.trim());
    }
    assert_eq!(trim(" \t a b \n"), "a b");
    assert_eq!(trim("  "), "");
}

#[test]
fn pieces_of_texts() {
    assert_eq!(split("", ','), [""]);
    assert_eq!(split("a,,b,", ','), ["a", "", "b", ""]);
    assert!(contains("abcabd", "abd"));
    assert!(!contains("abcab", "abd"));
    assert!(contains("", ""));
    assert!(!contains("", "a"));
    assert_eq!(strip_prefix("data: x", "data: ").as_deref(), Some("x"));
    assert_eq!(strip_prefix("data:x", "data: "), None);
    assert_eq!(strip_prefix("", "d"), None);
    assert_eq!(trim_end_matches("a//", '/'), "a");
    assert_eq!(trim_end_matches("//", '/'), "");
    assert_eq!(trim_end_matches("/a", '/'), "/a");
}

#[test]
fn splitting_undoes_joining() {
    for parts in [vec![""], vec!["a"], vec!["", ""], vec!["a", "", "bc", "ä"]] {
        assert_eq!(split(&parts.join(","), ','), parts);
    }
}

use hyperx_switchd::daemon::is_blank;
use hyperx_switchd::number::{decimal, hex4, parse_u16};
use hyperx_switchd::text::{
    chars_of, contains, nonempty_equal, normalize_text, normalized_equal,
    optional_normalized_equal, same_text, trim, white_space,
};

#[test]
fn text_is_normalized() {
    assert_eq!(normalize_text("HyperX_Cloud--III  S"), "hyperx cloud iii s");
    assert_eq!(normalize_text("  a.B\u{e9}c1 "), "a b c1");
    assert_eq!(normalize_text(" -._ "), "");
    assert_eq!(normalize_text(""), "");
    assert_eq!(normalize_text("x"), "x");
}

#[test]
fn normalizing_twice_is_normalizing_once() {
    for raw in ["", "A", " a--B ", "Generic USB Audio (2)", "\u{3000}x\ty"] {
        let once = normalize_text(raw);
        assert_eq!(normalize_text(&once), once);
        assert_eq!(normalize_text(&raw.to_ascii_uppercase()), once);
    }
}

#[test]
fn texts_are_compared_by_their_words() {
    assert!(normalized_equal("USB-Audio", "usb audio"));
    assert!(normalized_equal("usb audio", "USB-Audio"));
    assert!(!normalized_equal("usbaudio", "usb audio"));
    assert!(!normalized_equal("", ""));
    assert!(!normalized_equal("--", "--"));
    assert!(optional_normalized_equal(Some("A"), Some("a")));
    assert!(!optional_normalized_equal(Some("a"), None));
    assert!(!optional_normalized_equal(None, None));
    assert!(nonempty_equal(Some("a"), Some("a")));
    assert!(!nonempty_equal(Some("A"), Some("a")));
    assert!(!nonempty_equal(Some(""), Some("")));
    assert!(!nonempty_equal(None, Some("a")));
    assert!(!nonempty_equal(None, None));
}

#[test]
fn parts_are_found_as_the_standard_library_finds_them() {
    let texts = ["", "a", "aab", "abab", "abcabd", "\u{e9}a\u{e9}"];
    let parts = ["", "a", "b", "ab", "aab", "abd", "abab", "ababa", "\u{e9}"];
    for text in texts {
        for part in parts {
            assert_eq!(contains(text, part), text.contains(part), "{text} {part}");
            assert_eq!(same_text(text, part), text == part);
        }
    }
}

#[test]
fn white_space_is_that_of_the_standard_library() {
    for code in 0..=0x0010_ffff_u32 {
        if let Some(c) = char::from_u32(code) {
            assert_eq!(white_space(c), c.is_whitespace(), "{code:x}");
        }
    }
}

#[test]
fn white_space_is_trimmed_at_both_ends() {
    for raw in ["", " ", "a", " a b ", "\t\n", "\u{a0}x\u{2003}", "x "] {
        let trimmed: String = trim(&chars_of(raw)).into_iter().collect();
        assert_eq!(trimmed, raw.trim());
        assert_eq!(is_blank(raw), raw.trim().is_empty());
    }
}

#[test]
fn numbers_are_printed_as_the_standard_library_prints_them() {
    for n in [0u64, 1, 9, 10, 64, 99, 100, 12_345, u64::MAX] {
        assert_eq!(decimal(n), n.to_string());
    }
    for n in [0u16, 1, 0x10, 0x02cc, 0x03f0, 0x06be, 0xabcd, u16::MAX] {
        assert_eq!(hex4(n), format!("{n:04x}"));
    }
}

#[test]
fn numbers_of_any_radix_are_read_as_the_standard_library_reads_them() {
    for text in ["", "+", "0", "zz", "Zz", "10", "+7", "ffff", "fffff", "8", "-0"] {
        for radix in [2u32, 8, 10, 16, 36] {
            assert_eq!(
                parse_u16(&chars_of(text), radix),
                u16::from_str_radix(text, radix).ok(),
                "{text} {radix}"
            );
        }
    }
}

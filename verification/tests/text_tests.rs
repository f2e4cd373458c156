use mcp_inspector::text::{clone_optional, is_whitespace, starts_with, trim};

#[test]
fn trim_removes_whitespace_at_both_ends() {
    assert_eq!(trim("  X-Test \t"), "X-Test");
    assert_eq!(trim("\r\nvalue\n"), "value");
    assert_eq!(trim("a b"), "a b");
}

#[test]
fn trim_of_blank_text_is_empty() {
    assert_eq!(trim(""), "");
    assert_eq!(trim("   "), "");
    assert_eq!(trim("\t\n\u{a0}\u{3000}"), "");
}

#[test]
fn trim_keeps_inner_whitespace_and_other_characters() {
    assert_eq!(trim(" caf\u{e9}  au lait "), "caf\u{e9}  au lait");
    assert_eq!(trim("\u{2003}x\u{2003}"), "x");
}

#[test]
fn trim_agrees_with_the_standard_library() {
    let samples = [
        "",
        " ",
        "a",
        " a",
        "a ",
        "\u{85}a\u{1680}",
        "\u{2028}\u{2029}b\u{202f}\u{205f}",
        "\u{200b}c\u{200b}",
        "\u{b}\u{c}d\u{1c}",
        "  two words  ",
    ];
    for s in samples {
        assert_eq!(trim(s), s.trim());
    }
}

#[test]
fn trim_twice_is_trim_once() {
    for s in ["  a  ", "\tb", "c\n", "", " \u{a0} "] {
        let once = trim(s);
        assert_eq!(trim(&once), once);
    }
}

#[test]
fn whitespace_class_is_the_unicode_one() {
    for code in 0u32..0x3100 {
        if let Some(c) = char::from_u32(code) {
            assert_eq!(is_whitespace(c), c.is_whitespace(), "U+{:04X}", code);
        }
    }
    assert!(!is_whitespace('\u{feff}'));
    assert!(!is_whitespace('\u{10ffff}'));
}

#[test]
fn starts_with_compares_the_leading_characters() {
    assert!(starts_with("text/event-stream; charset=utf-8", "text/event-stream"));
    assert!(starts_with("abc", ""));
    assert!(starts_with("abc", "abc"));
    assert!(!starts_with("ab", "abc"));
    assert!(!starts_with("xbc", "abc"));
    assert!(!starts_with("Text/event-stream", "text/event-stream"));
    assert!(starts_with("\u{e9}t\u{e9}", "\u{e9}t"));
}

#[test]
fn clone_optional_copies_the_text() {
    assert_eq!(clone_optional(&Some("abc".to_string())), Some("abc".to_string()));
    assert_eq!(clone_optional(&None), None);
}

use ruuvi_data_forwarder_rs::text::{
    self, blank, concat3, contains, decimal_text, signed_decimal_text, space, starts_with, trim,
};

#[test]
fn white_space_is_that_of_unicode() {
    for c in '\0'..=char::MAX {
        assert_eq!(space(c), c.is_whitespace(), "{c:?}");
    }
}

#[test]
fn trimming_takes_white_space_off_both_ends() {
    for text in ["", " ", "a", " a b\t", "\u{3000}\u{e4} \u{85}", "\n\n", "x\u{200b}"] {
        assert_eq!(trim(text), text.trim());
        assert_eq!(trim(trim(text)), text.trim());
        assert_eq!(blank(text), text.trim().is_empty());
    }
}

#[test]
fn texts_are_searched() {
    assert!(contains("a=b", '='));
    assert!(!contains("", '='));
    assert!(!contains("ab", '='));
    assert!(starts_with("postgres://x", "postgres://"));
    assert!(!starts_with("postgres:/", "postgres://"));
    assert!(starts_with("a", ""));
}

#[test]
fn texts_are_joined() {
    assert_eq!(text::concat("a", "\u{e4}"), "a\u{e4}");
    assert_eq!(concat3("a", "", "c"), "ac");
}

#[test]
fn numbers_are_written_in_decimal() {
    for n in [0, 1, 9, 10, 99, 100, 65536, u64::MAX] {
        assert_eq!(decimal_text(n), n.to_string());
    }
    for n in i16::MIN..=i16::MAX {
        assert_eq!(signed_decimal_text(n), n.to_string());
    }
}

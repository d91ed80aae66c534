use jest_companion::text::{
    decimal_text, is_blank, is_white_space, join, sort_texts, text_not_after, trim,
};

#[test]
fn white_space_is_that_of_unicode() {
    for n in 0..0x110000u32 {
        if let Some(c) = char::from_u32(n) {
            assert_eq!(is_white_space(c), c.is_whitespace(), "{n:x}");
        }
    }
}

#[test]
fn trims_both_sides() {
    for s in ["", " ", "\t a b \r\n", "x", "\u{2003}\u{e9} \u{3000}", "\u{85}\u{a0}"] {
        assert_eq!(trim(s), s.trim());
        assert_eq!(is_blank(s), s.trim().is_empty());
    }
}

#[test]
fn writes_decimal_numbers() {
    for n in [0, 7, 10, 30, 300, 1009, u64::MAX] {
        assert_eq!(decimal_text(n), n.to_string());
    }
}

#[test]
fn joins_with_a_separator() {
    let parts = vec!["a".to_string(), "".to_string(), "c".to_string()];
    assert_eq!(join(&parts, ", "), "a, , c");
    assert_eq!(join(&vec!["a".to_string()], ", "), "a");
    assert_eq!(join(&Vec::new(), ", "), "");
}

#[test]
fn sorts_as_strings_are_ordered() {
    let words = ["b", "", "a", "ab", "Z", "\u{e9}", "a", "\u{1f600}", "\u{ffff}"];
    let given: Vec<String> = words.iter().map(|s| s.to_string()).collect();
    let mut expected = given.clone();
    expected.sort();
    assert_eq!(sort_texts(&given), expected);
    assert_eq!(expected[0], "");
    for a in words {
        for b in words {
            assert_eq!(text_not_after(a, b), a <= b);
        }
    }
}

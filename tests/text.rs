use mathwords::text::{is_blank, is_white_space};

#[test]
fn empty_and_spaces_are_blank() {
    assert!(is_blank(""));
    assert!(is_blank("   "));
    assert!(is_blank("\t\n\r \u{0b}\u{0c}"));
    assert!(is_blank("\u{a0}\u{2003}\u{3000}"));
}

#[test]
fn text_with_content_is_not_blank() {
    assert!(!is_blank("x"));
    assert!(!is_blank("  x+y  "));
    assert!(!is_blank("\u{200b}"));
}

#[test]
fn white_space_agrees_with_char() {
    for c in ['\t', '\n', ' ', '\u{85}', '\u{a0}', '\u{1680}', '\u{2000}', '\u{200a}', '\u{2028}', '\u{2029}', '\u{202f}', '\u{205f}', '\u{3000}', 'a', '0', '\u{200b}', '\u{feff}', '<'] {
        assert_eq!(is_white_space(c), c.is_whitespace(), "{:?}", c);
    }
}

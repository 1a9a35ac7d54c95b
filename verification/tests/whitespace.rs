use catch_input::trim::trim;
use catch_input::whitespace::is_whitespace;

#[test]
fn the_four_whitespace_characters() {
    assert!(is_whitespace(' '));
    assert!(is_whitespace('\t'));
    assert!(is_whitespace('\r'));
    assert!(is_whitespace('\n'));
}

#[test]
fn text_is_no_whitespace() {
    for c in ['a', 'Z', '0', '_', '.', '\0', '\u{b}', '\u{c}', '\u{a0}', '\u{e9}', '\u{3000}', '\u{1f980}'] {
        assert!(!is_whitespace(c));
    }
}

#[test]
fn trimming_agrees_with_the_classification() {
    for code in 0u32..0x3100 {
        if let Some(c) = char::from_u32(code) {
            let line = format!("{}x{}", c, c);
            if is_whitespace(c) {
                assert_eq!(trim(&line), "x");
            } else {
                assert_eq!(trim(&line), line);
            }
        }
    }
}

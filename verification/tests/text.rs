use telegrand::text::{is_white_space_char, trim};

#[test]
fn trim_matches_std() {
    for s in ["", "   ", "a", " a ", "\t\na b\r\n", "\u{a0}x\u{2028}", "x\u{200b}", "\u{85}y\u{3000}"] {
        assert_eq!(trim(s), s.trim());
    }
}

#[test]
fn white_space_matches_std() {
    for c in ['\u{0}', ' ', '\t', '\u{b}', '\u{85}', '\u{a0}', '\u{1680}', '\u{200a}', '\u{200b}', '\u{2029}', '\u{202f}', '\u{205f}', '\u{3000}', 'a', '\u{feff}'] {
        assert_eq!(is_white_space_char(c), c.is_whitespace(), "{:?}", c);
    }
}

#[test]
fn trimming_twice_is_trimming_once() {
    for s in ["", " \u{2000} ", " a b ", "\u{3000}z\t"] {
        let once = trim(s);
        assert_eq!(trim(&once), once);
        assert!(!once.starts_with(char::is_whitespace));
        assert!(!once.ends_with(char::is_whitespace));
    }
}

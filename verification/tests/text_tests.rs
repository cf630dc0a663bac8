use lgtvctl::text::{blank, decimal_string, has_char, joined, same_text, trim};

#[test]
fn trim_removes_unicode_white_space() {
    assert_eq!(trim("  a b \t\n"), "a b");
    assert_eq!(trim("\u{3000}x\u{a0}"), "x");
    assert_eq!(trim("   "), "");
    assert_eq!(trim(""), "");
    for s in ["  x ", "\u{2028}y", "z\u{85}", "\u{200b}q"] {
        assert_eq!(trim(s), s.trim());
    }
    assert!(blank(" \r\n"));
    assert!(!blank(" k "));
}

#[test]
fn decimal_and_text() {
    assert_eq!(decimal_string(0), "0");
    assert_eq!(decimal_string(3001), "3001");
    assert_eq!(decimal_string(u64::MAX), u64::MAX.to_string());
    assert!(same_text("abc", "abc"));
    assert!(!same_text("abc", "abd"));
    assert!(has_char("a:b", ':'));
    assert!(!has_char("ab", ':'));
    assert_eq!(joined("ab", "cd"), "abcd");
}

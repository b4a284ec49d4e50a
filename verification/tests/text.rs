use ruva::text::{contains_char, is_whitespace, replace_char, replace_str, starts_with, str_eq, trim};

#[test]
fn trim_drops_unicode_white_space() {
    assert_eq!(trim("  a b \t\n"), "a b");
    assert_eq!(trim("\u{3000}x\u{a0}"), "x");
    assert_eq!(trim("   "), "");
    assert_eq!(trim(""), "");
    assert_eq!(trim("x"), "x");
}

#[test]
fn trim_agrees_with_std() {
    for s in ["", " ", "ab", " a b ", "\u{2028}z\u{85}", "\u{200b}k"] {
        assert_eq!(trim(s), s.trim());
    }
}

#[test]
fn char_and_prefix_tests() {
    assert!(starts_with("https://x", "https://"));
    assert!(!starts_with("http:", "http://"));
    assert!(contains_char("a.b", '.'));
    assert!(!contains_char("ab", '.'));
    assert!(str_eq("abc", "abc"));
    assert!(!str_eq("abc", "abd"));
}

#[test]
fn replace_char_replaces_every_occurrence() {
    assert_eq!(replace_char("a b  c", ' ', "+"), "a+b++c");
    assert_eq!(replace_char("x", 'y', "zz"), "x");
    assert_eq!(replace_char("\\'", '\\', "\\\\"), "\\\\'");
}

#[test]
fn replace_str_agrees_with_std() {
    let cases = [("aaa", "aa", "b"), ("<script>x<script>", "<script>", "S"), ("abc", "zz", "q"), ("", "a", "b")];
    for (s, p, w) in cases {
        assert_eq!(replace_str(s, p, w), s.replace(p, w));
    }
}

#[test]
fn white_space_agrees_with_std_on_every_char() {
    for u in 0u32..0x110000 {
        if let Some(c) = char::from_u32(u) {
            assert_eq!(is_whitespace(c), c.is_whitespace(), "U+{:04X}", u);
        }
    }
}

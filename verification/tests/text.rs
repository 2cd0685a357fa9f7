use authorization::chars::{split_once_char, split_whitespace_str, str_eq, trim_str};

#[test]
fn trim_removes_surrounding_whitespace() {
    assert_eq!(trim_str("  alice \t\n"), "alice");
    assert_eq!(trim_str("alice"), "alice");
    assert_eq!(trim_str("   "), "");
    assert_eq!(trim_str(""), "");
    assert_eq!(trim_str("\u{2003} wide \u{3000}"), "wide");
}

#[test]
fn split_whitespace_finds_the_tokens() {
    assert_eq!(split_whitespace_str("Basic abc"), vec!["Basic", "abc"]);
    assert_eq!(split_whitespace_str("  a \t b  c "), vec!["a", "b", "c"]);
    assert_eq!(split_whitespace_str("   "), Vec::<&str>::new());
    assert_eq!(split_whitespace_str("one"), vec!["one"]);
}

#[test]
fn split_once_needs_exactly_one_separator() {
    assert_eq!(split_once_char("a:b", ':'), Some(("a", "b")));
    assert_eq!(split_once_char(":b", ':'), Some(("", "b")));
    assert_eq!(split_once_char("ab", ':'), None);
    assert_eq!(split_once_char("a:b:c", ':'), None);
}

#[test]
fn str_eq_compares_characters() {
    assert!(str_eq("abc", "abc"));
    assert!(!str_eq("abc", "abd"));
    assert!(!str_eq("abc", "ab"));
    assert!(str_eq("", ""));
}

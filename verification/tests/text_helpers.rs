use pinentry::text::{char_is_whitespace, first_index, frame_line, same_text, split_once_at, trim_text};

#[test]
fn split_at_first_separator() {
    assert_eq!(split_once_at("a b c", ' '), ("a".to_string(), Some("b c".to_string())));
    assert_eq!(split_once_at("abc", ' '), ("abc".to_string(), None));
    assert_eq!(split_once_at(" x", ' '), (String::new(), Some("x".to_string())));
    assert_eq!(split_once_at("k=", '='), ("k".to_string(), Some(String::new())));
    assert_eq!(split_once_at("ä=ö", '='), ("ä".to_string(), Some("ö".to_string())));
}

#[test]
fn first_index_finds_first_occurrence() {
    assert_eq!(first_index("hello", 'l'), Some(2));
    assert_eq!(first_index("hello", 'z'), None);
    assert_eq!(first_index("", '%'), None);
}

#[test]
fn same_text_compares_characters() {
    assert!(same_text("GETPIN", "GETPIN"));
    assert!(!same_text("GETPIN", "GETPI"));
}

#[test]
fn trim_drops_surrounding_whitespace() {
    assert_eq!(trim_text("  a b \n"), "a b");
    assert_eq!(trim_text("\u{A0}x\t"), "x");
    assert_eq!(trim_text(" \r\n "), "");
    assert_eq!(trim_text("already"), "already");
}

#[test]
fn frame_appends_newline() {
    assert_eq!(frame_line("OK"), "OK\n");
    assert_eq!(frame_line(""), "\n");
}

#[test]
fn whitespace_agrees_with_std_on_every_char() {
    for v in 0u32..=0x10FFFF {
        if let Some(c) = char::from_u32(v) {
            assert_eq!(char_is_whitespace(c), c.is_whitespace(), "{v:#x}");
        }
    }
}

#[test]
fn trim_agrees_with_std() {
    for s in ["  GETPIN \r\n", "\u{3000}x\u{2028}", "\u{85}a b\u{1680}", "", "\t\n"] {
        assert_eq!(trim_text(s), s.trim());
    }
}

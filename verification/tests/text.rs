use federog::text::{
    contains_text, decimal_text, join_crlf, replace_char, same_text, signed_decimal_text,
    text_before, trim, trim_end_char, white_space,
};

#[test]
fn white_space_is_that_of_unicode() {
    for code in 0..=0x10ffffu32 {
        if let Some(c) = char::from_u32(code) {
            assert_eq!(white_space(c), c.is_whitespace(), "{code:x}");
        }
    }
}

#[test]
fn ends_are_trimmed() {
    assert_eq!(trim(" \u{3000}a b\u{85}\n"), "a b");
    assert_eq!(trim(" \t"), "");
    assert_eq!(trim_end_char("a//b//", '/'), "a//b");
    assert_eq!(trim_end_char("//", '/'), "");
}

#[test]
fn parts_are_found() {
    assert_eq!(text_before("a,b,c", ','), "a");
    assert_eq!(text_before("abc", ','), "abc");
    assert_eq!(text_before(",", ','), "");
    assert!(contains_text("aab", "ab"));
    assert!(contains_text("ab", ""));
    assert!(!contains_text("ab", "abc"));
    assert!(!contains_text("", "a"));
    assert!(same_text("aé", "aé"));
    assert!(!same_text("a", "ab"));
}

#[test]
fn characters_are_replaced() {
    assert_eq!(replace_char("a b c", ' ', "T"), "aTbTc");
    assert_eq!(replace_char("a\nb", '\n', "<br>\n"), "a<br>\nb");
    assert_eq!(join_crlf("\r\n\r\r\n\n\r"), "\n\r\n\n\r");
}

#[test]
fn numerals_are_decimal() {
    for n in [0u64, 9, 10, 65535, u64::MAX] {
        assert_eq!(decimal_text(n), n.to_string());
    }
    for n in [0i64, -1, 10, -10, i64::MAX, i64::MIN] {
        assert_eq!(signed_decimal_text(n), n.to_string());
    }
}

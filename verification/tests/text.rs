use aqbot_agent_runtime::text::{
    contains_text, copy_or_empty, copy_text, hex_text, i32_text, is_lowered_to, is_white_space,
    join_texts, same_text, take_chars, trim, u64_text,
};

#[test]
fn trim_removes_unicode_white_space_at_both_ends() {
    assert_eq!(trim("  a b \n"), "a b");
    assert_eq!(trim("\u{3000}\u{a0}x\u{2003}"), "x");
    assert_eq!(trim(" \t\n"), "");
    assert_eq!(trim("inner \u{a0} space"), "inner \u{a0} space");
    assert_eq!(trim("\u{200b}x"), "\u{200b}x");
}

#[test]
fn texts_are_compared_and_cut_by_characters() {
    assert!(same_text("é", "é"));
    assert!(!same_text("é", "e"));
    assert!(!same_text("ab", "abc"));
    assert_eq!(take_chars("héllo", 2), "hé");
    assert_eq!(take_chars("hi", 5), "hi");
}

#[test]
fn parts_of_a_text_are_found() {
    let texts = ["", "a", "é", "aab", "ab", "b", "éa", "xaabé", "aaab"];
    for text in texts {
        for part in texts {
            assert_eq!(contains_text(text, part), text.contains(part), "{:?} {:?}", text, part);
        }
    }
}

#[test]
fn texts_are_compared_in_lower_case() {
    assert!(is_lowered_to("CmD", "cmd"));
    assert!(is_lowered_to("", ""));
    assert!(is_lowered_to("PS1", "ps1"));
    assert!(is_lowered_to("\u{c9}Z[@`{", "\u{c9}z[@`{"));
    assert!(!is_lowered_to("\u{c9}", "\u{e9}"));
    assert!(!is_lowered_to("cmd", "CMD"));
    assert!(!is_lowered_to("cmd", "cmdx"));
    for code in 0..128u8 {
        let text = char::from(code).to_string();
        assert!(is_lowered_to(&text, &text.to_ascii_lowercase()), "{:x}", code);
    }
}

#[test]
fn numbers_are_written_in_decimal() {
    assert_eq!(u64_text(0), "0");
    assert_eq!(u64_text(u64::MAX), "18446744073709551615");
    assert_eq!(i32_text(-1), "-1");
    assert_eq!(i32_text(i32::MIN), "-2147483648");
    assert_eq!(i32_text(120), "120");
}

#[test]
fn parts_are_joined_with_a_separator() {
    let parts = vec!["a".to_string(), "".to_string(), "c".to_string()];
    assert_eq!(join_texts(&parts, ", "), "a, , c");
    assert_eq!(join_texts(&Vec::new(), ", "), "");
}

#[test]
fn bytes_are_written_in_hexadecimal() {
    assert_eq!(hex_text(&vec![0, 15, 16, 171, 255]), "000f10abff");
}

#[test]
fn missing_texts_are_copied_as_missing_or_empty() {
    assert_eq!(copy_text(&None), None);
    assert_eq!(copy_text(&Some("x".to_string())), Some("x".to_string()));
    assert_eq!(copy_or_empty(&None), "");
    assert_eq!(copy_or_empty(&Some("x".to_string())), "x");
}

#[test]
fn white_space_is_what_the_standard_library_says() {
    for code in 0..=0x10ffffu32 {
        if let Some(c) = char::from_u32(code) {
            assert_eq!(is_white_space(c), c.is_whitespace(), "{:x}", code);
        }
    }
}

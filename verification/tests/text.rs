use p2p::text::{chars_of, join_strings, split_on, split_on_newline, string_from_chars, trim_text, u64_to_decimal};

#[test]
fn decimal_text() {
    assert_eq!(u64_to_decimal(0), "0");
    assert_eq!(u64_to_decimal(7), "7");
    assert_eq!(u64_to_decimal(1234567890), "1234567890");
    assert_eq!(u64_to_decimal(u64::MAX), u64::MAX.to_string());
}

#[test]
fn splitting_and_joining() {
    assert_eq!(split_on("a.b..c", '.'), vec!["a", "b", "", "c"]);
    assert_eq!(split_on("", '.'), vec![""]);
    assert_eq!(split_on_newline("x\ny\n"), vec!["x", "y", ""]);
    let parts = vec!["a".to_string(), "b".to_string(), "c".to_string()];
    assert_eq!(join_strings(&parts, " -> "), "a -> b -> c");
    assert_eq!(join_strings(&vec![], ","), "");
    assert_eq!(string_from_chars(&chars_of("你好")), "你好");
}

#[test]
fn trimming() {
    assert_eq!(trim_text("  a b \t\n"), "a b");
    assert_eq!(trim_text(""), "");
    assert_eq!(trim_text(" \n "), "");
    assert_eq!(trim_text("\u{3000}x\u{3000}"), "x");
    assert_eq!(trim_text("x"), "x");
}

#[test]
fn trimming_uses_the_white_space_property() {
    assert_eq!(trim_text("\u{85}\u{a0}\u{1680}x\u{2028}\u{202f}\u{205f}\u{200a}\u{b}"), "x");
    // zero-width space and U+180E are not white space
    assert_eq!(trim_text("\u{200b}x\u{180e}"), "\u{200b}x\u{180e}");
}

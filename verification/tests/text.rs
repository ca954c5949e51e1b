use neon_storage::text::{
    concat2, concat3, decimal_string, has_last_char, hex_string, join_text, replace_text,
    split_text, without_last_char,
};

#[test]
fn numbers_are_written() {
    assert_eq!(decimal_string(0), "0");
    assert_eq!(decimal_string(9), "9");
    assert_eq!(decimal_string(10), "10");
    assert_eq!(decimal_string(u64::MAX), "18446744073709551615");
    assert_eq!(hex_string(0x1af, 2), "af");
    assert_eq!(hex_string(0x1af, 4), "01af");
    assert_eq!(hex_string(5, 0), "");
}

#[test]
fn texts_are_split_and_joined() {
    assert_eq!(split_text("/a//b", '/'), vec!["", "a", "", "b"]);
    assert_eq!(split_text("", '/'), vec![""]);
    let parts = split_text("a/b/c", '/');
    assert_eq!(join_text(&parts, "_"), "a_b_c");
    assert_eq!(join_text(&Vec::new(), "_"), "");
}

#[test]
fn texts_are_replaced_from_the_left() {
    assert_eq!(replace_text("aaa", "aa", "b"), "ba");
    assert_eq!(replace_text("abcabc", "bc", ""), "aa");
    assert_eq!(replace_text("abc", "x", "y"), "abc");
    assert_eq!(replace_text("abc", "abc", "abc"), "abc");
    assert_eq!("aaa".replace("aa", "b"), "ba");
}

#[test]
fn texts_are_put_together() {
    assert_eq!(concat2("a", "b"), "ab");
    assert_eq!(concat3("a", "", "c"), "ac");
    assert!(has_last_char("a/", '/'));
    assert!(!has_last_char("", '/'));
    assert_eq!(without_last_char("ab"), "a");
}

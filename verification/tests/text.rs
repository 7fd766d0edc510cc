use flusty::text::{
    decimal, join, parse_decimal, push_chars, push_decimal, replace_all, same_text, to_chars,
};

#[test]
fn to_chars_gives_the_characters_in_order() {
    let v = to_chars("h\u{e9}llo");
    assert_eq!(v, vec!['h', '\u{e9}', 'l', 'l', 'o']);
    assert_eq!(to_chars(""), Vec::<char>::new());
}

#[test]
fn push_chars_appends() {
    let mut s = String::from("ab");
    push_chars(&mut s, &vec!['c', 'd']);
    assert_eq!(s, "abcd");
}

#[test]
fn same_text_compares_characters() {
    assert!(same_text("i32", "i32"));
    assert!(!same_text("i32", "i33"));
    assert!(!same_text("i32", "i3"));
    assert!(same_text("", ""));
}

#[test]
fn join_puts_the_separator_between_neighbours() {
    let parts = vec!["a".to_string(), "b".to_string(), "c".to_string()];
    assert_eq!(join(&parts, ", "), "a, b, c");
    assert_eq!(join(&vec!["a".to_string()], ", "), "a");
    assert_eq!(join(&vec![], ", "), "");
    assert_eq!(join(&vec!["".to_string(), "".to_string()], "-"), "-");
}

#[test]
fn decimal_writes_base_ten() {
    assert_eq!(decimal(0), "0");
    assert_eq!(decimal(7), "7");
    assert_eq!(decimal(10), "10");
    assert_eq!(decimal(1234567890), "1234567890");
    assert_eq!(decimal(usize::MAX), usize::MAX.to_string());
    let mut s = String::from("n=");
    push_decimal(&mut s, 42);
    assert_eq!(s, "n=42");
}

#[test]
fn parse_decimal_reads_digits_only() {
    assert_eq!(parse_decimal("4"), Some(4));
    assert_eq!(parse_decimal("0"), Some(0));
    assert_eq!(parse_decimal("00012"), Some(12));
    assert_eq!(parse_decimal(""), None);
    assert_eq!(parse_decimal("12a"), None);
    assert_eq!(parse_decimal("+12"), None);
    assert_eq!(parse_decimal("-1"), None);
    assert_eq!(parse_decimal(" 1"), None);
}

#[test]
fn parse_decimal_refuses_what_does_not_fit() {
    let max = usize::MAX.to_string();
    assert_eq!(parse_decimal(&max), Some(usize::MAX));
    let mut more = max.clone();
    more.push('0');
    assert_eq!(parse_decimal(&more), None);
    assert_eq!(parse_decimal("340282366920938463463374607431768211456"), None);
    if usize::MAX as u128 == u64::MAX as u128 {
        assert_eq!(parse_decimal("18446744073709551616"), None);
    }
}

#[test]
fn parse_decimal_is_the_inverse_of_decimal() {
    for n in [0usize, 1, 9, 10, 99, 100, 65535, 4294967295] {
        assert_eq!(parse_decimal(&decimal(n)), Some(n));
    }
}

#[test]
fn replace_all_replaces_from_the_left() {
    assert_eq!(replace_all("a#X#b#X#", "#X#", "1"), "a1b1");
    assert_eq!(replace_all("aaa", "aa", "b"), "ba");
    assert_eq!(replace_all("abc", "x", "y"), "abc");
    assert_eq!(replace_all("abc", "", "y"), "abc");
    assert_eq!(replace_all("", "a", "y"), "");
    assert_eq!(replace_all("ab", "abc", "y"), "ab");
    assert_eq!(replace_all("xx", "x", "xx"), "xxxx");
}

#[test]
fn replace_all_agrees_with_std_on_a_pattern_that_is_not_empty() {
    for (text, pat, to) in [("hello world", "o", "0"), ("aaaa", "aa", "a"), ("#A##A#", "#A#", "")] {
        assert_eq!(replace_all(text, pat, to), text.replace(pat, to));
    }
}

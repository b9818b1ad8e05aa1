use webview_ipc::text::{chars_of, decimal_string, find_first, same_text, skip_chars, split_first, starts_with};

#[test]
fn decimal_of_zero_is_one_digit() {
    assert_eq!(decimal_string(0), "0");
}

#[test]
fn decimal_of_single_digits() {
    assert_eq!(decimal_string(7), "7");
    assert_eq!(decimal_string(9), "9");
}

#[test]
fn decimal_has_no_leading_zeros() {
    assert_eq!(decimal_string(10), "10");
    assert_eq!(decimal_string(100), "100");
    assert_eq!(decimal_string(1203), "1203");
}

#[test]
fn decimal_of_the_greatest_number() {
    assert_eq!(decimal_string(u32::MAX), "4294967295");
}

#[test]
fn decimal_agrees_with_the_standard_library() {
    let mut n: u32 = 1;
    for _ in 0..31 {
        assert_eq!(decimal_string(n), n.to_string());
        assert_eq!(decimal_string(n - 1), (n - 1).to_string());
        n *= 2;
    }
}

#[test]
fn chars_of_keeps_every_character() {
    assert_eq!(chars_of("a|é✓"), vec!['a', '|', 'é', '✓']);
    assert_eq!(chars_of(""), Vec::<char>::new());
}

#[test]
fn starts_with_accepts_a_prefix_only() {
    assert!(starts_with("plugin:fs|read", "plugin:"));
    assert!(starts_with("plugin:", "plugin:"));
    assert!(starts_with("anything", ""));
    assert!(!starts_with("plugin", "plugin:"));
    assert!(!starts_with("xplugin:fs", "plugin:"));
    assert!(!starts_with("", "p"));
}

#[test]
fn same_text_compares_characters() {
    assert!(same_text("main", "main"));
    assert!(!same_text("main", "Main"));
    assert!(!same_text("main", "main2"));
    assert!(same_text("", ""));
}

#[test]
fn find_first_gives_the_least_position() {
    assert_eq!(find_first(&vec!['a', '|', 'b', '|'], '|'), 1);
    assert_eq!(find_first(&vec!['|'], '|'), 0);
}

#[test]
fn find_first_gives_the_length_where_absent() {
    assert_eq!(find_first(&vec!['a', 'b'], '|'), 2);
    assert_eq!(find_first(&Vec::new(), '|'), 0);
}

#[test]
fn split_first_splits_at_the_first_separator() {
    assert_eq!(split_first("fs|readFile", '|'), ("fs".to_string(), "readFile".to_string()));
    assert_eq!(split_first("a|b|c", '|'), ("a".to_string(), "b|c".to_string()));
    assert_eq!(split_first("|x", '|'), ("".to_string(), "x".to_string()));
    assert_eq!(split_first("x|", '|'), ("x".to_string(), "".to_string()));
}

#[test]
fn split_first_without_separator_keeps_all_in_front() {
    assert_eq!(split_first("fs", '|'), ("fs".to_string(), "".to_string()));
    assert_eq!(split_first("", '|'), ("".to_string(), "".to_string()));
}

#[test]
fn split_first_counts_characters_not_bytes() {
    assert_eq!(split_first("é✓|ü", '|'), ("é✓".to_string(), "ü".to_string()));
}

#[test]
fn skip_chars_drops_the_front() {
    assert_eq!(skip_chars("plugin:fs", 7), "fs");
    assert_eq!(skip_chars("abc", 0), "abc");
    assert_eq!(skip_chars("abc", 3), "");
    assert_eq!(skip_chars("é✓ü", 2), "ü");
}

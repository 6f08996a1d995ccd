use immichsync::text::{
    decimal_string, occurs_at_exec, strip_leading_repeated, trim_trailing_char,
    trim_trailing_separators_exec,
};

#[test]
fn trims_only_trailing_characters() {
    assert_eq!(trim_trailing_char("a//b//", '/'), "a//b");
    assert_eq!(trim_trailing_char("////", '/'), "");
    assert_eq!(trim_trailing_char("é/", '/'), "é");
}

#[test]
fn strips_repeated_prefixes() {
    assert_eq!(strip_leading_repeated("ababc", "ab"), "c");
    assert_eq!(strip_leading_repeated("abc", ""), "abc");
    assert_eq!(strip_leading_repeated("a", "ab"), "a");
}

#[test]
fn occurs_at_positions() {
    assert!(occurs_at_exec("hello", "ll", 2));
    assert!(!occurs_at_exec("hello", "ll", 3));
    assert!(!occurs_at_exec("hello", "lo", 9));
    assert!(occurs_at_exec("hello", "", 5));
}

#[test]
fn decimal_rendering() {
    assert_eq!(decimal_string(0), "0");
    assert_eq!(decimal_string(9), "9");
    assert_eq!(decimal_string(10), "10");
    assert_eq!(decimal_string(404), "404");
    assert_eq!(decimal_string(65535), "65535");
}

#[test]
fn trims_trailing_path_separators_but_keeps_a_root() {
    assert_eq!(trim_trailing_separators_exec("D:\\Photos\\\\/"), "D:\\Photos");
    assert_eq!(trim_trailing_separators_exec("/"), "/");
    assert_eq!(trim_trailing_separators_exec("//"), "/");
    assert_eq!(trim_trailing_separators_exec(""), "");
    assert_eq!(trim_trailing_separators_exec("a\\b"), "a\\b");
}

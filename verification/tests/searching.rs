use cio::search::{bytes_contain, chars_contain};
use cio::text::{chars_of, decimal_text, push_decimal, text_contains};

#[test]
fn bytes_contain_finds_runs() {
    assert!(bytes_contain(b"hello world", b"lo w"));
    assert!(bytes_contain(b"hello world", b"hello"));
    assert!(bytes_contain(b"hello world", b"world"));
    assert!(bytes_contain(b"hello", b"hello"));
    assert!(!bytes_contain(b"hello", b"hello!"));
    assert!(!bytes_contain(b"hello", b"hex"));
    assert!(!bytes_contain(b"aab", b"aba"));
    assert!(bytes_contain(b"aaab", b"aab"));
}

#[test]
fn bytes_contain_empty_needle() {
    assert!(bytes_contain(b"abc", b""));
    assert!(bytes_contain(b"", b""));
    assert!(!bytes_contain(b"", b"a"));
}

#[test]
fn chars_contain_finds_runs() {
    let hay: Vec<char> = "blob is too_large for this".chars().collect();
    let needle: Vec<char> = "too_large".chars().collect();
    let other: Vec<char> = "too large".chars().collect();
    assert!(chars_contain(&hay, &needle));
    assert!(!chars_contain(&hay, &other));
    assert!(chars_contain(&hay, &Vec::new()));
}

#[test]
fn chars_of_gives_the_characters() {
    assert_eq!(chars_of("héllo"), vec!['h', 'é', 'l', 'l', 'o']);
    assert_eq!(chars_of(""), Vec::<char>::new());
}

#[test]
fn text_contains_matches_std() {
    let cases = [("abc", "bc"), ("abc", "cb"), ("", ""), ("a", ""), ("ünïcödé", "cö"), ("xx", "xxx")];
    for (text, needle) in cases {
        assert_eq!(text_contains(text, needle), text.contains(needle));
    }
}

#[test]
fn decimal_text_writes_base_ten() {
    assert_eq!(decimal_text(0), "0");
    assert_eq!(decimal_text(7), "7");
    assert_eq!(decimal_text(10), "10");
    assert_eq!(decimal_text(12), "12");
    assert_eq!(decimal_text(1234567890), "1234567890");
    assert_eq!(decimal_text(u64::MAX), "18446744073709551615");
}

#[test]
fn push_decimal_appends() {
    let mut s = String::from("n=");
    push_decimal(&mut s, 405);
    assert_eq!(s, "n=405");
}

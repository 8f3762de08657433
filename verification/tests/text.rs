use task_supervisor::text::{
    chars_of, contains_chars, contains_text, decimal_text, find_last, parse_unsigned_text,
    push_decimal, push_signed_decimal, same_text,
};

fn signed(i: i32) -> String {
    let mut out = String::new();
    push_signed_decimal(&mut out, i);
    out
}

#[test]
fn numbers_are_written_in_decimal() {
    assert_eq!(decimal_text(0), "0");
    assert_eq!(decimal_text(7), "7");
    assert_eq!(decimal_text(10), "10");
    assert_eq!(decimal_text(1234567890), "1234567890");
    assert_eq!(decimal_text(u64::MAX), "18446744073709551615");
    let mut out = "n=".to_string();
    push_decimal(&mut out, 42);
    assert_eq!(out, "n=42");
}

#[test]
fn signed_numbers_are_written_in_decimal() {
    assert_eq!(signed(0), "0");
    assert_eq!(signed(-1), "-1");
    assert_eq!(signed(255), "255");
    assert_eq!(signed(i32::MIN), "-2147483648");
    assert_eq!(signed(i32::MAX), "2147483647");
}

#[test]
fn unsigned_numbers_are_read_up_to_the_bound() {
    assert_eq!(parse_unsigned_text("0", 0), Some(0));
    assert_eq!(parse_unsigned_text("1", 0), None);
    assert_eq!(parse_unsigned_text("255", 255), Some(255));
    assert_eq!(parse_unsigned_text("256", 255), None);
    assert_eq!(parse_unsigned_text("4294967295", u32::MAX), Some(u32::MAX));
    assert_eq!(parse_unsigned_text("4294967296", u32::MAX), None);
    assert_eq!(parse_unsigned_text("+12", 100), Some(12));
    assert_eq!(parse_unsigned_text("0012", 100), Some(12));
    assert_eq!(parse_unsigned_text("", 100), None);
    assert_eq!(parse_unsigned_text("+", 100), None);
    assert_eq!(parse_unsigned_text("12x", 100), None);
    assert_eq!(parse_unsigned_text("x12", 100), None);
    assert_eq!(parse_unsigned_text("1+2", 100), None);
}

#[test]
fn written_numbers_are_read_back() {
    for n in [0u32, 1, 9, 10, 11, 99, 100, 101, 65535, 65536, 999999999, u32::MAX] {
        assert_eq!(parse_unsigned_text(&decimal_text(n as u64), u32::MAX), Some(n));
    }
}

#[test]
fn texts_are_compared_by_their_characters() {
    assert!(same_text("", ""));
    assert!(same_text("abc", "abc"));
    assert!(!same_text("abc", "abd"));
    assert!(!same_text("abc", "ab"));
    assert!(!same_text("ab", "abc"));
    assert!(!same_text("é", "e\u{301}"));
    assert!(same_text("日本語", "日本語"));
    assert_eq!(chars_of("aé日"), vec!['a', 'é', '日']);
    assert!(chars_of("").is_empty());
}

#[test]
fn substrings_are_found() {
    assert!(contains_text("hello world", "hello"));
    assert!(contains_text("hello world", "world"));
    assert!(contains_text("hello world", "o w"));
    assert!(contains_text("hello world", ""));
    assert!(contains_text("", ""));
    assert!(!contains_text("", "a"));
    assert!(!contains_text("hello", "hello world"));
    assert!(!contains_text("hello world", "worlds"));
    assert!(contains_text("aaab", "aab"));
    assert!(!contains_text("abab", "bb"));
    assert!(contains_text("状态: 正常", "正常"));
    assert!(contains_chars(&vec!['a', 'b', 'c'], &vec!['c']));
    assert!(!contains_chars(&vec!['a', 'b', 'c'], &vec!['c', 'a']));
}

#[test]
fn substring_search_agrees_with_std_on_samples() {
    let hays = ["", "a", "ab", "abcabc", "aaaa", "x日y本z", "mississippi"];
    let needles = ["", "a", "b", "bc", "ca", "aa", "aaaaa", "日y", "本", "ssi", "ssip", "pi", "ip "];
    for hay in hays {
        for needle in needles {
            assert_eq!(
                contains_text(hay, needle),
                hay.contains(needle),
                "{:?} in {:?}",
                needle,
                hay
            );
        }
    }
}

#[test]
fn the_last_occurrence_is_found() {
    assert_eq!(find_last(&chars_of("a:b:c"), ':'), Some(3));
    assert_eq!(find_last(&chars_of(":"), ':'), Some(0));
    assert_eq!(find_last(&chars_of("abc"), ':'), None);
    assert_eq!(find_last(&chars_of(""), ':'), None);
    assert_eq!(find_last(&chars_of("日:本"), ':'), Some(1));
}

use gemini_ask::model::ThinkingLevel;
use gemini_ask::text::{chars_of, contains, decimal, same_text};

#[test]
fn decimal_of_zero_is_one_digit() {
    assert_eq!(decimal(0), "0");
}

#[test]
fn decimal_of_single_digits() {
    assert_eq!(decimal(7), "7");
    assert_eq!(decimal(9), "9");
}

#[test]
fn decimal_of_several_digits() {
    assert_eq!(decimal(10), "10");
    assert_eq!(decimal(4096), "4096");
    assert_eq!(decimal(1_000_000), "1000000");
}

#[test]
fn decimal_of_largest_value() {
    assert_eq!(decimal(u64::MAX), "18446744073709551615");
}

#[test]
fn decimal_agrees_with_std_formatting() {
    let mut n: u64 = 1;
    while n < 1_000_000_000_000 {
        assert_eq!(decimal(n), format!("{}", n));
        assert_eq!(decimal(n - 1), format!("{}", n - 1));
        n *= 7;
    }
}

#[test]
fn chars_of_keeps_every_character() {
    assert_eq!(chars_of("a\u{e9}\u{4e2d}z"), vec!['a', '\u{e9}', '\u{4e2d}', 'z']);
    assert_eq!(chars_of(""), Vec::<char>::new());
}

#[test]
fn same_text_compares_characters() {
    assert!(same_text("text", "text"));
    assert!(!same_text("text", "Text"));
    assert!(!same_text("text", "text "));
    assert!(same_text("", ""));
}

#[test]
fn contains_finds_at_start_middle_and_end() {
    assert!(contains("abcdef", "abc"));
    assert!(contains("abcdef", "cde"));
    assert!(contains("abcdef", "def"));
    assert!(contains("abcdef", "abcdef"));
}

#[test]
fn contains_rejects_what_is_not_there() {
    assert!(!contains("abcdef", "abd"));
    assert!(!contains("abc", "abcd"));
    assert!(!contains("", "a"));
    assert!(!contains("aab", "aba"));
}

#[test]
fn contains_finds_after_a_partial_match() {
    assert!(contains("aaab", "aab"));
    assert!(contains("xxabxabc", "abc"));
}

#[test]
fn contains_the_empty_string_always() {
    assert!(contains("abc", ""));
    assert!(contains("", ""));
}

#[test]
fn contains_works_on_characters_beyond_ascii() {
    assert!(contains("caf\u{e9} au lait", "\u{e9} au"));
    assert!(!contains("caf\u{e9}", "e"));
}

#[test]
fn contains_agrees_with_std() {
    let hays = ["", "a", "ab", "aba", "abab", "baba", "aabb", "bbaa"];
    let needles = ["", "a", "b", "ab", "ba", "aa", "bb", "aba", "bab", "abab"];
    for hay in hays {
        for needle in needles {
            assert_eq!(contains(hay, needle), hay.contains(needle));
        }
    }
}

#[test]
fn thinking_level_names_are_lower_case() {
    assert_eq!(ThinkingLevel::Minimal.name(), "minimal");
    assert_eq!(ThinkingLevel::Low.name(), "low");
    assert_eq!(ThinkingLevel::Medium.name(), "medium");
    assert_eq!(ThinkingLevel::High.name(), "high");
}

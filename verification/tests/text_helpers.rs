use gsearch::text::{chars_of, find_from, has_prefix, has_substring, matches_at, remove_all_occurrences, substring, u64_to_decimal};

#[test]
fn decimal_formats_numbers() {
    assert_eq!(u64_to_decimal(0), "0");
    assert_eq!(u64_to_decimal(7), "7");
    assert_eq!(u64_to_decimal(10), "10");
    assert_eq!(u64_to_decimal(4294967290), "4294967290");
    assert_eq!(u64_to_decimal(u64::MAX), u64::MAX.to_string());
}

#[test]
fn prefix_detection() {
    assert!(has_prefix("@rust", "@"));
    assert!(has_prefix("rust", ""));
    assert!(!has_prefix("rust@", "@"));
    assert!(!has_prefix("@", "@@"));
    assert!(has_prefix("ééx", "éé"));
}

#[test]
fn removal_of_every_occurrence() {
    assert_eq!(remove_all_occurrences("@rust@lang", "@"), "rustlang");
    assert_eq!(remove_all_occurrences("aaa", "aa"), "a");
    assert_eq!(remove_all_occurrences("abc", ""), "abc");
    assert_eq!(remove_all_occurrences("", "x"), "");
    assert_eq!(remove_all_occurrences("!!héllo!!", "!!"), "héllo");
    // the same as std's replace with an empty replacement
    for (s, p) in [("xxyxx", "xx"), ("abab", "ab"), ("@@q", "@")] {
        assert_eq!(remove_all_occurrences(s, p), s.replace(p, ""));
    }
}

#[test]
fn searching_characters() {
    let s = chars_of("a=q=b&c");
    let p = chars_of("q=");
    assert_eq!(find_from(&s, &p, 0), Some(2));
    assert_eq!(find_from(&s, &p, 3), None);
    assert!(matches_at(&s, &p, 2));
    assert!(!matches_at(&s, &p, 1));
    assert_eq!(substring("héllo", 1, 4), "éll");
}

#[test]
fn substring_detection() {
    assert!(has_substring("abcabd", "abd"));
    assert!(has_substring("x", ""));
    assert!(!has_substring("ab", "abc"));
    assert!(!has_substring("aXbc", "abc"));
}

#[test]
fn decimal_reads_back() {
    for n in [0u64, 9, 10, 99, 100, 12345, 4294967295, u64::MAX] {
        let s = u64_to_decimal(n);
        assert!(s.chars().all(|c| c.is_ascii_digit()));
        assert_eq!(s.parse::<u64>().unwrap(), n);
    }
}

#[test]
fn removing_an_absent_text_changes_nothing() {
    assert_eq!(remove_all_occurrences("rust lang", "@"), "rust lang");
    assert_eq!(remove_all_occurrences("ab", "abc"), "ab");
}

use bevy_mod_yarn::text::{chars_of, decimal, matches_at, push_decimal, remove_char, replace};

#[test]
fn chars_of_splits_into_characters() {
    assert_eq!(chars_of("héllo"), vec!['h', 'é', 'l', 'l', 'o']);
    assert_eq!(chars_of(""), Vec::<char>::new());
}

#[test]
fn remove_char_takes_out_every_occurrence() {
    assert_eq!(remove_char("\"a \"b\"", '"'), "a b");
    assert_eq!(remove_char("Alice:", ':'), "Alice");
    assert_eq!(remove_char(":::", ':'), "");
    assert_eq!(remove_char("plain", ':'), "plain");
    assert_eq!(remove_char("", ':'), "");
}

#[test]
fn matches_at_compares_a_window() {
    let text = chars_of("abcabc");
    let pattern = chars_of("bc");
    assert!(!matches_at(&text, &pattern, 0));
    assert!(matches_at(&text, &pattern, 1));
    assert!(matches_at(&text, &pattern, 4));
    assert!(!matches_at(&text, &pattern, 5));
    assert!(!matches_at(&text, &pattern, 6));
    assert!(matches_at(&text, &chars_of(""), 6));
}

#[test]
fn replace_swaps_every_occurrence() {
    assert_eq!(replace("a{0}b{0}", "{0}", "x"), "axbx");
    assert_eq!(replace("{0}", "{0}", ""), "");
    assert_eq!(replace("none here", "{0}", "x"), "none here");
    assert_eq!(replace("", "{0}", "x"), "");
    assert_eq!(replace("{0", "{0}", "x"), "{0");
}

#[test]
fn replace_scans_from_the_left_without_overlap() {
    assert_eq!(replace("aaa", "aa", "b"), "ba");
    assert_eq!(replace("aaaa", "aa", "b"), "bb");
    assert_eq!(replace("abab", "ab", "a"), "aa");
    assert_eq!(replace("aXbXc", "X", "XX"), "aXXbXXc");
}

#[test]
fn replace_agrees_with_the_standard_library() {
    for (text, from, to) in [
        ("Hello {0}, {1}!", "{1}", "world"),
        ("{{0}}", "{0}", "{0}"),
        ("ééé", "é", "e"),
        ("abcabcabc", "bca", "-"),
        ("short", "much longer than the text", "x"),
    ] {
        assert_eq!(replace(text, from, to), text.replace(from, to));
    }
}

#[test]
fn replace_with_an_empty_pattern_keeps_the_text() {
    assert_eq!(replace("abc", "", "x"), "abc");
    assert_eq!(replace("", "", "x"), "");
}

#[test]
fn decimal_writes_numerals() {
    assert_eq!(decimal(0), "0");
    assert_eq!(decimal(7), "7");
    assert_eq!(decimal(10), "10");
    assert_eq!(decimal(109), "109");
    assert_eq!(decimal(1234567890), "1234567890");
    assert_eq!(decimal(usize::MAX), usize::MAX.to_string());
}

#[test]
fn push_decimal_appends() {
    let mut out = String::from("{");
    push_decimal(&mut out, 42);
    assert_eq!(out, "{42");
}

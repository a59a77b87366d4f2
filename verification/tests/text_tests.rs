use tts_core::strutil::{components, contains_str, str_eq, trim_str, truncate_chars, u64_to_dec};
use tts_core::text::sanitise_sentence;

#[test]
fn sanitise_replaces_smart_punctuation() {
    assert_eq!(
        sanitise_sentence("\u{2018}Hi\u{2019} \u{201c}there\u{201d}"),
        "'Hi' \"there\""
    );
    assert_eq!(sanitise_sentence("a\u{2014}b\u{2013}c"), "a-b-c");
    assert_eq!(sanitise_sentence("wait\u{2026}"), "wait...");
    assert_eq!(sanitise_sentence("\u{ab}quote\u{bb}"), "(quote)");
    assert_eq!(
        sanitise_sentence("\u{ff0c}\u{3002}\u{ff01}\u{ff1f}\u{ff1a}\u{ff1b}"),
        ",.!?:;"
    );
}

#[test]
fn sanitise_trims_after_replacement() {
    assert_eq!(sanitise_sentence("  hello world  "), "hello world");
    assert_eq!(sanitise_sentence("\t\n"), "");
    assert_eq!(sanitise_sentence("plain"), "plain");
}

#[test]
fn trim_matches_std() {
    assert_eq!(trim_str("  a b  "), "a b");
    assert_eq!(trim_str(""), "");
    assert_eq!(trim_str("   "), "");
    assert_eq!(trim_str("x"), "x");
    assert_eq!(trim_str("\u{a0}nbsp\u{a0}"), "nbsp");
}

#[test]
fn truncate_takes_a_prefix() {
    assert_eq!(truncate_chars("hello", 3), "hel");
    assert_eq!(truncate_chars("hi", 200), "hi");
    assert_eq!(truncate_chars("", 5), "");
}

#[test]
fn contains_finds_substrings() {
    assert!(contains_str("invalid Utf8 data", "Utf8"));
    assert!(!contains_str("invalid utf8 data", "Utf8"));
    assert!(contains_str("abc", ""));
    assert!(!contains_str("ab", "abc"));
}

#[test]
fn decimal_rendering() {
    assert_eq!(u64_to_dec(0), "0");
    assert_eq!(u64_to_dec(7), "7");
    assert_eq!(u64_to_dec(404), "404");
    assert_eq!(u64_to_dec(18446744073709551615), "18446744073709551615");
}

#[test]
fn string_equality() {
    assert!(str_eq("abc", "abc"));
    assert!(!str_eq("abc", "abd"));
    assert!(!str_eq("", "a"));
}

#[test]
fn component_splitting() {
    assert_eq!(components("a/b/c"), vec!["a", "b", "c"]);
    assert_eq!(components("/a//b/"), vec!["a", "b"]);
    assert_eq!(components(""), Vec::<String>::new());
    assert_eq!(components("name"), vec!["name"]);
}

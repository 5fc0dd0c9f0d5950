use cosmonaute::text::{contains_str, decimal, join_path};

#[test]
fn decimal_writes_zero() {
    assert_eq!(decimal(0), "0");
}

#[test]
fn decimal_writes_several_digits() {
    assert_eq!(decimal(7), "7");
    assert_eq!(decimal(10), "10");
    assert_eq!(decimal(1234), "1234");
    assert_eq!(decimal(1000000), "1000000");
}

#[test]
fn decimal_agrees_with_to_string_at_the_largest_value() {
    assert_eq!(decimal(usize::MAX), usize::MAX.to_string());
}

#[test]
fn join_path_inserts_a_separator() {
    assert_eq!(join_path("/w/target", "doc"), "/w/target/doc");
}

#[test]
fn join_path_keeps_a_trailing_separator() {
    assert_eq!(join_path("/home/generic/.cosmonaute/", "demo.bitcode"), "/home/generic/.cosmonaute/demo.bitcode");
}

#[test]
fn join_path_absolute_part_replaces_base() {
    assert_eq!(join_path("/w/target", "/etc/x.json"), "/etc/x.json");
}

#[test]
fn join_path_empty_base_gives_part() {
    assert_eq!(join_path("", "doc"), "doc");
}

#[test]
fn join_path_matches_std_path_join() {
    for (base, part) in [("/a/b", "c"), ("/a/b/", "c"), ("", "c"), ("/a", "/c"), ("a", "b.json"), ("/a", "")] {
        let expected = std::path::Path::new(base).join(part).to_string_lossy().into_owned();
        assert_eq!(join_path(base, part), expected, "joining {part:?} onto {base:?}");
    }
}

#[test]
fn contains_str_finds_substrings() {
    assert!(contains_str("serde_json", "json"));
    assert!(contains_str("serde_json", "serde_json"));
    assert!(contains_str("serde_json", ""));
    assert!(contains_str("", ""));
    assert!(!contains_str("serde", "serde_json"));
    assert!(!contains_str("serde_json", "jsno"));
    assert!(contains_str("aaab", "aab"));
}

#[test]
fn contains_str_agrees_with_std_on_unicode() {
    for (hay, needle) in [("größe", "öß"), ("日本語", "本"), ("日本語", "語x"), ("abc", "c")] {
        assert_eq!(contains_str(hay, needle), hay.contains(needle));
    }
}

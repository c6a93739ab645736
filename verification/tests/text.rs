use mcp_oauth::string_map::StringMap;
use mcp_oauth::text::{clone_list, clone_opt, concat_str, contains, starts_with, str_eq, strip_prefix};

#[test]
fn str_eq_compares_characters() {
    assert!(str_eq("abc", "abc"));
    assert!(!str_eq("abc", "abd"));
    assert!(!str_eq("abc", "ab"));
    assert!(str_eq("", ""));
}

#[test]
fn starts_with_accepts_exact_prefixes_only() {
    assert!(starts_with("mcp-code-42", "mcp-code-"));
    assert!(starts_with("mcp-code-", "mcp-code-"));
    assert!(starts_with("anything", ""));
    assert!(!starts_with("mcp-code", "mcp-code-"));
    assert!(!starts_with("xmcp-code-42", "mcp-code-"));
    assert!(!starts_with("", "a"));
}

#[test]
fn strip_prefix_returns_the_rest() {
    assert_eq!(strip_prefix("Bearer abc", "Bearer "), Some("abc".to_string()));
    assert_eq!(strip_prefix("Bearer ", "Bearer "), Some(String::new()));
    assert_eq!(strip_prefix("bearer abc", "Bearer "), None);
    assert_eq!(strip_prefix("Bearer", "Bearer "), None);
    assert_eq!(strip_prefix("mcp-code-mcp-code-7", "mcp-code-"), Some("mcp-code-7".to_string()));
}

#[test]
fn strip_prefix_counts_characters_not_bytes() {
    assert_eq!(strip_prefix("\u{e9}t\u{e9} chaud", "\u{e9}t\u{e9} "), Some("chaud".to_string()));
    assert_eq!(strip_prefix("\u{1f600}x", "\u{1f600}"), Some("x".to_string()));
}

#[test]
fn contains_finds_runs_anywhere() {
    assert!(contains("http://localhost:8080/callback", "http://localhost:8080/callback"));
    assert!(contains("http://localhost:8080/callback", "localhost"));
    assert!(contains("http://localhost:8080/callback", "/callback"));
    assert!(contains("http://localhost:8080/callback", "h"));
    assert!(contains("abc", ""));
    assert!(contains("", ""));
    assert!(!contains("", "a"));
    assert!(!contains("abc", "abcd"));
    assert!(!contains("http://localhost:8080/callback", "https://"));
    assert!(!contains("aab", "aba"));
    assert!(contains("aaab", "aab"));
}

#[test]
fn contains_agrees_with_std_on_non_ascii_text() {
    let hay = "na\u{ef}ve caf\u{e9} \u{1f600} end";
    for needle in ["\u{ef}ve", "caf\u{e9}", "\u{1f600}", "\u{e9} \u{1f600} e", "cafe", "\u{1f601}"] {
        assert_eq!(contains(hay, needle), hay.contains(needle));
    }
}

#[test]
fn concat_joins_in_order() {
    assert_eq!(concat_str("mcp-token-", "7"), "mcp-token-7");
    assert_eq!(concat_str("", "x"), "x");
    assert_eq!(concat_str("x", ""), "x");
}

#[test]
fn clones_keep_contents() {
    assert_eq!(clone_opt(&Some("a".to_string())), Some("a".to_string()));
    assert_eq!(clone_opt(&None), None);
    let list = vec!["profile".to_string(), "email".to_string()];
    assert_eq!(clone_list(&list), list);
    assert_eq!(clone_list(&Vec::new()), Vec::<String>::new());
}

#[test]
fn string_map_starts_empty() {
    let map: StringMap<u32> = StringMap::new();
    assert_eq!(map.get("a"), None);
    assert!(!map.contains_key("a"));
    assert_eq!(map.len(), 0);
}

#[test]
fn string_map_insert_then_get() {
    let mut map: StringMap<u32> = StringMap::new();
    map.insert("a".to_string(), 1);
    map.insert("b".to_string(), 2);
    assert_eq!(map.get("a"), Some(&1));
    assert_eq!(map.get("b"), Some(&2));
    assert_eq!(map.get("c"), None);
    assert!(map.contains_key("b"));
    assert_eq!(map.len(), 2);
}

#[test]
fn string_map_insert_replaces_and_does_not_grow() {
    let mut map: StringMap<u32> = StringMap::new();
    map.insert("a".to_string(), 1);
    map.insert("b".to_string(), 2);
    map.insert("a".to_string(), 3);
    assert_eq!(map.get("a"), Some(&3));
    assert_eq!(map.get("b"), Some(&2));
    assert_eq!(map.len(), 2);
}

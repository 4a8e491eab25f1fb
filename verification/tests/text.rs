use stdio_bus::string_map::StringMap;
use stdio_bus::string_set::StringSet;
use stdio_bus::text::{
    byte_len, decimal_text, parse_u64, replace_all, same, signed_decimal_text, strip_prefix, trim,
    trim_end,
};

#[test]
fn decimals_are_written_and_read() {
    for n in [0, 1, 9, 10, 99, 100, 18446744073709551615] {
        assert_eq!(decimal_text(n), n.to_string());
        assert_eq!(parse_u64(&n.to_string()), Some(n));
    }
    for n in [i64::MIN, -10, -1, 0, 7, i64::MAX] {
        assert_eq!(signed_decimal_text(n), n.to_string());
    }
}

#[test]
fn blanks_are_those_of_unicode() {
    for code in 0..=0x10FFFF_u32 {
        if let Some(c) = char::from_u32(code) {
            assert_eq!(stdio_bus::text::blank(c), c.is_whitespace(), "{code:x}");
        }
    }
}

#[test]
fn trimming_matches_std() {
    for text in ["", "  ", "a", " a ", "\t a b \r\n", "\u{3000}x\u{2028}", "é "] {
        assert_eq!(trim_end(text), text.trim_end());
        assert_eq!(trim(text), text.trim());
    }
}

#[test]
fn replacement_matches_std() {
    for (text, pattern, by) in [
        ("aaaa", "aa", "b"),
        ("aaa", "aa", "b"),
        ("abcabc", "abc", ""),
        ("abc", "x", "y"),
        ("", "x", "y"),
        ("日本日本", "日本", "$日"),
        ("ababa", "aba", "aba"),
    ] {
        assert_eq!(replace_all(text, pattern, by), text.replace(pattern, by));
    }
}

#[test]
fn prefixes_are_stripped() {
    assert_eq!(strip_prefix("thread:a", "thread:"), Some("a"));
    assert_eq!(strip_prefix("thread", "thread:"), None);
    assert_eq!(strip_prefix("é:x", "é:"), Some("x"));
    assert_eq!(strip_prefix("abc", ""), Some("abc"));
}

#[test]
fn lengths_are_in_bytes() {
    assert_eq!(byte_len("é🎉a"), "é🎉a".len());
    assert!(same("é", "é"));
    assert!(!same("a", "b"));
}

#[test]
fn string_map_keeps_one_value_per_key() {
    let mut map: StringMap<u32> = StringMap::new();
    assert!(map.is_empty());
    map.insert("b", 1);
    map.insert("a", 2);
    map.insert("b", 3);
    assert_eq!(map.len(), 2);
    assert_eq!(map.get("b"), Some(&3));
    assert_eq!(map.get("c"), None);
    assert!(map.contains_key("a"));
    assert_eq!(map.keys(), vec!["b", "a"]);
    assert_eq!(map.remove("b"), Some(3));
    assert_eq!(map.remove("b"), None);
    assert_eq!(map.len(), 1);
}

#[test]
fn string_set_has_each_text_once() {
    let texts = vec!["x".to_string(), "y".to_string(), "x".to_string()];
    let mut set = StringSet::from_texts(&texts);
    assert_eq!(set.len(), 2);
    assert!(set.contains("x"));
    assert!(!set.contains("z"));
    let copy = set.clone();
    set.insert("z");
    assert_eq!(set.len(), 3);
    assert_eq!(copy.len(), 2);
    assert!(StringSet::new().is_empty());
    assert!(!copy.is_empty());
}

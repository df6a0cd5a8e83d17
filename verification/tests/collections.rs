use aelm_mcp::json::Json;
use aelm_mcp::text::{join_with, split_on, strip_text_prefix};
use aelm_mcp::text_map::TextMap;

#[test]
fn text_map_insert_replace_and_order() {
    let mut m: TextMap<u32> = TextMap::new();
    assert!(m.is_empty());
    m.insert("b".to_string(), 2);
    m.insert("a".to_string(), 1);
    m.insert("c".to_string(), 3);
    m.insert("b".to_string(), 20);
    assert_eq!(m.len(), 3);
    assert_eq!(m.get("b"), Some(&20));
    assert_eq!(m.get("z"), None);
    let keys: Vec<&str> = (0..m.len()).map(|i| m.entry(i).0.as_str()).collect();
    assert_eq!(keys, vec!["a", "b", "c"]);
}

#[test]
fn text_map_orders_by_bytes() {
    let mut m: TextMap<()> = TextMap::new();
    for k in ["b", "B", "a", "ä", "A"] {
        m.insert(k.to_string(), ());
    }
    let keys: Vec<&str> = (0..m.len()).map(|i| m.entry(i).0.as_str()).collect();
    assert_eq!(keys, vec!["A", "B", "a", "b", "ä"]);
}

#[test]
fn json_lookups() {
    let j = Json::Object(vec![
        ("a".to_string(), Json::Str("x".to_string())),
        ("b".to_string(), Json::Array(vec![Json::Null])),
    ]);
    assert!(matches!(j.get("a").and_then(|v| v.as_str()), Some(s) if s == "x"));
    assert_eq!(j.get("b").and_then(|v| v.as_array()).map(|v| v.len()), Some(1));
    assert!(j.get("c").is_none());
    assert!(Json::Null.is_null());
    assert!(!Json::Bool(false).is_null());
    assert!(Json::Null.get("a").is_none());
}

#[test]
fn split_and_join_round_trip() {
    let parts = split_on("a\n## b\n## ", "\n## ");
    assert_eq!(parts, vec!["a", "b", ""]);
    assert_eq!(join_with(&parts, "\n## "), "a\n## b\n## ");
    assert_eq!(split_on("", ","), vec![""]);
}

#[test]
fn prefix_stripping() {
    assert_eq!(strip_text_prefix("aelm://docs/dsl", "aelm://docs/"), Some("dsl".to_string()));
    assert_eq!(strip_text_prefix("aelm://doc", "aelm://docs/"), None);
    assert_eq!(strip_text_prefix("x", ""), Some("x".to_string()));
}

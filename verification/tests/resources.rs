use aelm_mcp::resources::docs::{list, read};
use aelm_mcp::tools::docs::{topic, topics};

#[test]
fn test_list_covers_all_topics() {
    let resources = list();
    assert_eq!(resources.len(), topics().len());
    assert!(resources.iter().any(|r| r.uri == "aelm://docs/dsl"));
}

#[test]
fn test_read_known_topic() {
    let c = read("aelm://docs/cli");
    assert!(c.is_some());
}

#[test]
fn test_read_unknown_topic_is_none() {
    assert!(read("aelm://docs/nonexistent").is_none());
}

#[test]
fn test_read_non_docs_uri_is_none() {
    assert!(read("aelm://parts/Resistor").is_none());
}

#[test]
fn listing_entries_exactly() {
    let r = list();
    assert_eq!(r[3].uri, "aelm://docs/patterns");
    assert_eq!(r[3].name, "Circuit Patterns");
    assert_eq!(r[3].mime_type, "text/markdown");
    assert_eq!(r[3].description, "Aelm Circuit Patterns (embedded).");
}

#[test]
fn reading_each_listed_uri_gives_its_body() {
    for (entry, t) in list().iter().zip(topics()) {
        let c = read(&entry.uri).unwrap();
        assert_eq!(c.text, t.body);
        assert_eq!(c.uri, entry.uri);
        assert_eq!(c.mime_type, "text/markdown");
    }
    assert_eq!(read("aelm://docs/drc").unwrap().text, topic("drc").unwrap().body);
    assert!(read("aelm://docs/").is_none());
    assert!(read("aelm://doc/dsl").is_none());
}

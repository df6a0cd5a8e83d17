use aelm_mcp::tools::docs::{get_reference, reference_text, topic, topic_keys, topics};
use aelm_mcp::tools::output::ToolContent;

fn text_of(c: &ToolContent) -> &str {
    match c {
        ToolContent::Text(t) => t.as_str(),
        ToolContent::Image { .. } => panic!("expected text"),
    }
}

#[test]
fn test_all_topics_have_nonempty_bodies() {
    for t in topics() {
        assert!(!t.body.is_empty(), "topic {} must have a body", t.key);
        assert!(!t.title.is_empty());
    }
}

#[test]
fn test_topic_lookup_known() {
    assert!(topic("dsl").is_some());
    assert!(topic("cli").is_some());
    assert!(topic("patterns").is_some());
}

#[test]
fn test_topic_lookup_unknown() {
    assert!(topic("nonexistent").is_none());
}

#[test]
fn test_topic_keys_lists_all() {
    let keys = topic_keys();
    assert!(keys.contains("dsl"));
    assert!(keys.contains("mistakes"));
}

#[test]
fn test_get_reference_defaults_to_dsl() {
    let r = get_reference(None);
    assert!(!r.is_error);
}

#[test]
fn test_get_reference_unknown_topic_is_error() {
    let r = get_reference(Some("bogus"));
    assert!(r.is_error);
}

#[test]
fn test_get_reference_known_topic() {
    let r = get_reference(Some("drc"));
    assert!(!r.is_error);
}

#[test]
fn test_get_dsl_reference_default() {
    let r = get_reference(None);
    assert!(!r.is_error);
}

#[test]
fn test_get_dsl_reference_cli() {
    let r = get_reference(Some("cli"));
    assert!(!r.is_error);
}

#[test]
fn test_get_dsl_reference_all_topics() {
    for t in topics() {
        let r = get_reference(Some(t.key));
        assert!(!r.is_error, "topic {} should be available", t.key);
    }
}

#[test]
fn topics_in_listing_order() {
    let keys: Vec<&str> = topics().iter().map(|t| t.key).collect();
    assert_eq!(keys, vec!["dsl", "cli", "style", "patterns", "drc", "mistakes"]);
    let titles: Vec<&str> = topics().iter().map(|t| t.title).collect();
    assert_eq!(
        titles,
        vec![
            "DSL Reference",
            "CLI Reference",
            "Style Reference",
            "Circuit Patterns",
            "DRC Rules",
            "Common Mistakes"
        ]
    );
}

#[test]
fn topic_keys_exact_text() {
    assert_eq!(topic_keys(), "dsl, cli, style, patterns, drc, mistakes");
}

#[test]
fn unknown_topic_message_names_the_keys() {
    let e = reference_text(Some("bogus")).unwrap_err();
    assert_eq!(
        e,
        "unknown doc topic 'bogus'. Available: dsl, cli, style, patterns, drc, mistakes"
    );
    let r = get_reference(Some("bogus"));
    assert_eq!(r.content.len(), 1);
    assert_eq!(text_of(&r.content[0]), e);
}

#[test]
fn reference_body_is_the_topic_body() {
    let dsl = topic("dsl").unwrap();
    assert_eq!(reference_text(None).unwrap(), dsl.body);
    let r = get_reference(Some("style"));
    assert_eq!(text_of(&r.content[0]), topic("style").unwrap().body);
    assert!(dsl.body.starts_with("# AI .aelm DSL Reference"));
}

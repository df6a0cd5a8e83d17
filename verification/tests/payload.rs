use aelm_mcp::json::Json;
use aelm_mcp::text_map::TextMap;
use aelm_mcp::tools::advanced::{
    CircuitDiff, InstanceChange, PlacementReport, RankedCandidate, Similarity,
};
use aelm_mcp::tools::payload::{diff_json, no_match_json, placement_json, scaffold_json, similar_json};

fn keys(j: &Json) -> Vec<&str> {
    match j {
        Json::Object(ms) => ms.iter().map(|m| m.0.as_str()).collect(),
        _ => panic!("expected an object"),
    }
}

fn field<'a>(j: &'a Json, k: &str) -> &'a Json {
    j.get(k).unwrap()
}

fn text(j: &Json) -> &str {
    match j {
        Json::Str(s) => s,
        Json::Number(s) => s,
        _ => panic!("expected text"),
    }
}

#[test]
fn diff_payload() {
    let d = CircuitDiff {
        added_instances: vec!["D1".to_string()],
        removed_instances: vec![],
        changed_instances: vec![InstanceChange {
            instance: "R1".to_string(),
            from: "Resistor".to_string(),
            to: "Inductor".to_string(),
        }],
        connection_count_before: 3,
        connection_count_after: 12,
    };
    let j = diff_json(&d);
    assert_eq!(
        keys(&j),
        vec!["added_instances", "removed_instances", "changed_instances", "connection_count_before", "connection_count_after"]
    );
    assert_eq!(text(field(&j, "connection_count_after")), "12");
    match field(&j, "changed_instances") {
        Json::Array(v) => {
            assert_eq!(keys(&v[0]), vec!["instance", "from", "to"]);
            assert_eq!(text(field(&v[0], "to")), "Inductor");
        }
        _ => panic!("expected an array"),
    }
    assert!(matches!(field(&j, "removed_instances"), Json::Array(v) if v.is_empty()));
}

#[test]
fn placement_and_no_match_payloads() {
    let p = PlacementReport {
        total_instances: 2,
        instances_without_placement: vec!["C1".to_string()],
        suggestion: "s".to_string(),
    };
    let j = placement_json(&p);
    assert_eq!(keys(&j), vec!["total_instances", "instances_without_placement", "suggestion"]);
    assert_eq!(text(field(&j, "total_instances")), "2");
    let n = no_match_json("zzz");
    assert_eq!(text(field(&n, "query")), "zzz");
    assert_eq!(text(field(&n, "note")), "No matching pattern. See the full `patterns` doc resource.");
    let s = scaffold_json("src", Json::Bool(true));
    assert_eq!(keys(&s), vec!["source", "validation"]);
    assert!(matches!(field(&s, "validation"), Json::Bool(true)));
}

#[test]
fn similar_payload() {
    let mut base = TextMap::new();
    base.insert("R".to_string(), 2usize);
    let mut parts = TextMap::new();
    parts.insert("R".to_string(), 1usize);
    parts.insert("C".to_string(), 1usize);
    let ranked = vec![RankedCandidate {
        index: 4,
        similarity: Similarity { shared: 1, total: 3 },
        parts,
    }];
    let j = similar_json(&base, &ranked, &vec!["0.3333333333333333".to_string()]);
    assert_eq!(keys(&j), vec!["base_parts", "ranked"]);
    assert_eq!(text(field(field(&j, "base_parts"), "R")), "2");
    match field(&j, "ranked") {
        Json::Array(v) => {
            assert_eq!(text(field(&v[0], "index")), "4");
            assert_eq!(text(field(&v[0], "similarity")), "0.3333333333333333");
            assert_eq!(keys(field(&v[0], "parts")), vec!["C", "R"]);
        }
        _ => panic!("expected an array"),
    }
}

use aelm_mcp::error::CliError;
use aelm_mcp::json::Json;
use aelm_mcp::text_map::TextMap;
use aelm_mcp::tools::advanced::{
    batch_answer, circuit_diff, connection_count, envelope_data, evaluate_calc_args, instance_types,
    jaccard, pipeline_svg_args, placement_report, preview_answer, preview_render_args, preview_themes,
    rank_similar, select_sections,
    render_outcome, suggest_circuit_pattern, topology_signature, variant_image, PatternSuggestion,
    Similarity,
};
use aelm_mcp::tools::output::ToolContent;

fn obj(members: Vec<(&str, Json)>) -> Json {
    Json::Object(members.into_iter().map(|(k, v)| (k.to_string(), v)).collect())
}

fn s(t: &str) -> Json {
    Json::Str(t.to_string())
}

fn num(n: u32) -> Json {
    Json::Number(n.to_string())
}

fn inst(name: &str, ty: &str) -> Json {
    obj(vec![("name", s(name)), ("type_name", s(ty))])
}

fn module_with(field: &str, items: Vec<Json>) -> Json {
    obj(vec![("modules", Json::Array(vec![obj(vec![(field, Json::Array(items))])]))])
}

fn counts(pairs: &[(&str, usize)]) -> TextMap<usize> {
    let mut m = TextMap::new();
    for (k, v) in pairs {
        m.insert(k.to_string(), *v);
    }
    m
}

fn score(x: Similarity) -> f64 {
    if x.total == 0 {
        1.0
    } else {
        x.shared as f64 / x.total as f64
    }
}

fn text(c: &ToolContent) -> &str {
    match c {
        ToolContent::Text(t) => t,
        ToolContent::Image { .. } => panic!("expected text"),
    }
}

#[test]
fn test_instance_types_extracts_map() {
    let data = module_with("instances", vec![inst("R1", "Resistor"), inst("C1", "Capacitor")]);
    let m = instance_types(&data);
    assert_eq!(m.get("R1").map(String::as_str), Some("Resistor"));
    assert_eq!(m.get("C1").map(String::as_str), Some("Capacitor"));
}

#[test]
fn test_connection_count() {
    let data = module_with("connections", vec![num(1), num(2), num(3)]);
    assert_eq!(connection_count(&data), 3);
}

#[test]
fn test_connection_count_missing_is_zero() {
    assert_eq!(connection_count(&obj(vec![])), 0);
}

#[test]
fn test_topology_signature_counts_parts() {
    let data = module_with(
        "instances",
        vec![inst("R1", "Resistor"), inst("R2", "Resistor"), inst("C1", "Capacitor")],
    );
    let sig = topology_signature(&data);
    assert_eq!(sig.get("Resistor"), Some(&2));
    assert_eq!(sig.get("Capacitor"), Some(&1));
}

#[test]
fn test_jaccard_identical_is_one() {
    let a = counts(&[("R", 2)]);
    assert!((score(jaccard(&a, &a)) - 1.0).abs() < 1e-9);
}

#[test]
fn test_jaccard_disjoint_is_zero() {
    let a = counts(&[("R", 1)]);
    let b = counts(&[("C", 1)]);
    assert!(score(jaccard(&a, &b)).abs() < 1e-9);
}

#[test]
fn test_jaccard_partial_overlap() {
    let a = counts(&[("R", 2), ("C", 1)]);
    let b = counts(&[("R", 1)]);
    // inter = min(2,1)=1; union = max(2,1)+max(1,0)=2+1=3 → 1/3
    assert!((score(jaccard(&a, &b)) - 1.0 / 3.0).abs() < 1e-9);
}

#[test]
fn test_jaccard_both_empty_is_one() {
    let a = TextMap::new();
    let b = TextMap::new();
    assert!((score(jaccard(&a, &b)) - 1.0).abs() < 1e-9);
}

#[test]
fn test_instance_types_empty_modules() {
    let data = obj(vec![("modules", Json::Array(vec![]))]);
    assert!(instance_types(&data).is_empty());
}

#[test]
fn test_instance_types_no_modules_key() {
    assert!(instance_types(&obj(vec![])).is_empty());
}

#[test]
fn test_instance_types_missing_fields_in_instance() {
    let data = module_with("instances", vec![obj(vec![("name", s("R1"))])]);
    assert!(instance_types(&data).is_empty());
}

#[test]
fn test_instance_types_no_instances_key() {
    let data = obj(vec![("modules", Json::Array(vec![obj(vec![])]))]);
    assert!(instance_types(&data).is_empty());
}

#[test]
fn test_topology_signature_empty_data() {
    let sig = topology_signature(&obj(vec![]));
    assert!(sig.is_empty());
}

#[test]
fn test_suggest_circuit_pattern_known_term() {
    let r = suggest_circuit_pattern("divider");
    assert!(matches!(r, PatternSuggestion::Sections(_)));
}

#[test]
fn test_suggest_circuit_pattern_no_match() {
    let r = suggest_circuit_pattern("zzzznonexistentqueryzzz");
    assert!(matches!(r, PatternSuggestion::NoMatch));
}

#[test]
fn pattern_sections_hold_the_query() {
    match suggest_circuit_pattern("DIVIDER") {
        PatternSuggestion::Sections(t) => assert!(t.to_lowercase().contains("divider")),
        PatternSuggestion::NoMatch => panic!("expected sections"),
    }
    // A query whose words occur separately falls back to the words.
    match suggest_circuit_pattern("zzzqqq divider") {
        PatternSuggestion::Sections(t) => assert!(t.to_lowercase().contains("divider")),
        PatternSuggestion::NoMatch => panic!("expected sections"),
    }
}

#[test]
fn later_duplicate_name_wins() {
    let data = module_with("instances", vec![inst("R1", "Resistor"), inst("R1", "Capacitor")]);
    let m = instance_types(&data);
    assert_eq!(m.len(), 1);
    assert_eq!(m.get("R1").map(String::as_str), Some("Capacitor"));
}

#[test]
fn diff_of_two_versions() {
    let before = obj(vec![(
        "modules",
        Json::Array(vec![obj(vec![
            ("instances", Json::Array(vec![inst("R1", "Resistor"), inst("C1", "Capacitor")])),
            ("connections", Json::Array(vec![num(1)])),
        ])]),
    )]);
    let after = obj(vec![(
        "modules",
        Json::Array(vec![obj(vec![
            ("instances", Json::Array(vec![inst("R1", "Inductor"), inst("D1", "Diode")])),
            ("connections", Json::Array(vec![num(1), num(2)])),
        ])]),
    )]);
    let d = circuit_diff(&before, &after);
    assert_eq!(d.added_instances, vec!["D1"]);
    assert_eq!(d.removed_instances, vec!["C1"]);
    assert_eq!(d.changed_instances.len(), 1);
    assert_eq!(d.changed_instances[0].instance, "R1");
    assert_eq!(d.changed_instances[0].from, "Resistor");
    assert_eq!(d.changed_instances[0].to, "Inductor");
    assert_eq!(d.connection_count_before, 1);
    assert_eq!(d.connection_count_after, 2);
    let back = circuit_diff(&after, &before);
    assert_eq!(back.added_instances, d.removed_instances);
    assert_eq!(back.removed_instances, d.added_instances);
    assert_eq!(back.changed_instances[0].from, "Inductor");
}

#[test]
fn diff_with_itself_is_empty() {
    let v = module_with("instances", vec![inst("R1", "Resistor"), inst("C1", "Capacitor")]);
    let d = circuit_diff(&v, &v);
    assert!(d.added_instances.is_empty());
    assert!(d.removed_instances.is_empty());
    assert!(d.changed_instances.is_empty());
    assert_eq!(d.connection_count_before, d.connection_count_after);
}

#[test]
fn placement_lists_unplaced_instances() {
    let data = module_with(
        "instances",
        vec![
            obj(vec![("name", s("R1")), ("placement", obj(vec![]))]),
            obj(vec![("name", s("R2")), ("placement", Json::Null)]),
            obj(vec![("name", s("C1"))]),
        ],
    );
    let r = placement_report(&data);
    assert_eq!(r.total_instances, 3);
    assert_eq!(r.instances_without_placement, vec!["R2", "C1"]);
    assert_eq!(
        r.suggestion,
        "Anchor the first instance with `place: (0, 0)`, then place the rest pin-relative. Instances missing placement: R2, C1"
    );
    let all = placement_report(&module_with("instances", vec![obj(vec![("name", s("R1")), ("placement", num(0))])]));
    assert_eq!(all.suggestion, "All instances have explicit placement.");
}

#[test]
fn ranking_best_first_ties_in_order() {
    let base = counts(&[("R", 2), ("C", 1)]);
    let cands = vec![
        Some(counts(&[("D", 1)])),
        None,
        Some(counts(&[("R", 2), ("C", 1)])),
        Some(counts(&[("R", 1)])),
        Some(counts(&[("X", 4)])),
    ];
    let r = rank_similar(&base, cands);
    let order: Vec<usize> = r.iter().map(|c| c.index).collect();
    assert_eq!(order, vec![2, 3, 0, 4]);
    assert_eq!(r[0].similarity.shared, 3);
    assert_eq!(r[0].similarity.total, 3);
    assert_eq!(r[1].similarity.shared, 1);
    assert_eq!(r[1].similarity.total, 3);
}

#[test]
fn envelope_data_takes_the_data_member() {
    let env = obj(vec![("success", Json::Bool(true)), ("data", s("d"))]);
    assert!(matches!(envelope_data(env), Json::Str(t) if t == "d"));
    let bare = obj(vec![("modules", Json::Array(vec![]))]);
    assert!(matches!(envelope_data(bare), Json::Object(m) if m.len() == 1 && m[0].0 == "modules"));
}

#[test]
fn batch_render_answers() {
    let empty = batch_answer(&vec![]);
    assert!(empty.is_error);
    assert_eq!(text(&empty.content[0]), "render_batch requires at least one source");
    let r = batch_answer(&vec![Ok("<svg/>".to_string()), Err("bad".to_string())]);
    assert!(r.is_error);
    assert_eq!(r.content.len(), 3);
    assert_eq!(text(&r.content[0]), "circuit 0: rendered");
    assert!(matches!(&r.content[1], ToolContent::Image { data, .. } if data == "PHN2Zy8+"));
    assert_eq!(text(&r.content[2]), "circuit 1: error \u{2014} bad");
    let ok = batch_answer(&vec![Ok("<svg/>".to_string())]);
    assert!(!ok.is_error);
}

#[test]
fn render_outcome_reads_the_envelope() {
    let env = obj(vec![("data", obj(vec![("render", obj(vec![("image_base64", s("<svg/>"))]))]))]);
    assert_eq!(render_outcome(&Ok(env)), Ok("<svg/>".to_string()));
    assert_eq!(render_outcome(&Ok(obj(vec![]))), Err("no image produced".to_string()));
    assert_eq!(
        render_outcome(&Err(CliError::JsonParse("x".to_string()))),
        Err("failed to parse aelm JSON output: x".to_string())
    );
    assert_eq!(variant_image(&Ok(obj(vec![]))), None);
    assert_eq!(variant_image(&Err(CliError::JsonParse("x".to_string()))), None);
}

#[test]
fn preview_compares_two_themes() {
    assert_eq!(preview_themes(None), ("light", "dark"));
    assert_eq!(preview_themes(Some("dark")), ("dark", "light"));
    assert_eq!(preview_themes(Some("sepia")), ("sepia", "dark"));
    let r = preview_answer("light", "dark", Ok("<a/>".to_string()), Some("<b/>".to_string()));
    assert!(!r.is_error);
    assert_eq!(r.content.len(), 4);
    assert_eq!(text(&r.content[0]), "baseline (light)");
    assert_eq!(text(&r.content[2]), "variant (dark)");
    let only = preview_answer("light", "dark", Ok("<a/>".to_string()), None);
    assert_eq!(only.content.len(), 2);
    let failed = preview_answer("light", "dark", Err("oops".to_string()), None);
    assert!(failed.is_error);
    assert_eq!(text(&failed.content[0]), "oops");
}

#[test]
fn calc_and_pipeline_arguments() {
    assert_eq!(evaluate_calc_args(), vec!["pipeline", "--stdin", "--stages", "parse,render", "--json"]);
    assert_eq!(
        pipeline_svg_args(Some("dark")),
        vec!["pipeline", "--stdin", "--stages", "render", "--render-format", "svg", "--theme", "dark", "--json"]
    );
    assert_eq!(
        pipeline_svg_args(None),
        vec!["pipeline", "--stdin", "--stages", "render", "--render-format", "svg", "--json"]
    );
}

#[test]
fn similarity_is_symmetric() {
    let a = counts(&[("R", 2), ("C", 1), ("L", 5)]);
    let b = counts(&[("R", 1), ("D", 3), ("L", 7)]);
    let ab = jaccard(&a, &b);
    let ba = jaccard(&b, &a);
    assert_eq!((ab.shared, ab.total), (ba.shared, ba.total));
    assert_eq!((ab.shared, ab.total), (6, 13));
}

#[test]
fn full_similarity_only_when_counts_agree() {
    let a = counts(&[("R", 2), ("C", 1)]);
    let same = counts(&[("C", 1), ("R", 2), ("X", 0)]);
    let s = jaccard(&a, &same);
    assert_eq!(s.shared, s.total);
    let other = counts(&[("R", 2), ("C", 2)]);
    let s = jaccard(&a, &other);
    assert!(s.shared < s.total);
}

#[test]
fn no_common_positive_count_shares_nothing() {
    let a = counts(&[("R", 1), ("C", 0)]);
    let b = counts(&[("C", 4)]);
    let s = jaccard(&a, &b);
    assert_eq!(s.shared, 0);
    assert_eq!(s.total, 5);
}

#[test]
fn sections_selected_from_lowered_texts() {
    let secs = vec!["A Divider".to_string(), "Filter".to_string()];
    let low = vec!["a divider".to_string(), "filter".to_string()];
    assert!(matches!(select_sections(&secs, &low, "divider"), PatternSuggestion::Sections(t) if t == "A Divider"));
    assert!(matches!(select_sections(&secs, &low, "zzz filter"), PatternSuggestion::Sections(t) if t == "Filter"));
    assert!(matches!(select_sections(&secs, &low, ""), PatternSuggestion::Sections(t) if t == "A Divider\n## Filter"));
    assert!(matches!(select_sections(&secs, &low, "zzz"), PatternSuggestion::NoMatch));
    // The match goes by the lowered text, not the section itself.
    assert!(matches!(select_sections(&secs, &low, "A Divider"), PatternSuggestion::NoMatch));
}

#[test]
fn preview_renders_one_light_one_dark() {
    let (b, v) = preview_render_args(Some("dark"));
    assert_eq!(b, vec!["pipeline", "--stdin", "--stages", "render", "--render-format", "svg", "--theme", "dark", "--json"]);
    assert_eq!(v, vec!["pipeline", "--stdin", "--stages", "render", "--render-format", "svg", "--theme", "light", "--json"]);
    let (b, v) = preview_render_args(None);
    assert_eq!(b[7], "light");
    assert_eq!(v[7], "dark");
    let (b, v) = preview_render_args(Some("sepia"));
    assert_eq!((b[7].as_str(), v[7].as_str()), ("light", "dark"));
}

#[test]
fn pattern_search_ignores_ascii_case() {
    let text = |q: &str| match suggest_circuit_pattern(q) {
        PatternSuggestion::Sections(t) => t,
        PatternSuggestion::NoMatch => String::new(),
    };
    assert_eq!(text("Voltage DIVIDER"), text("voltage divider"));
    assert!(!text("RC Filter").is_empty());
    assert_eq!(text("RC Filter"), text("rc filter"));
}

use aelm_mcp::prompts::{
    debug_drc, doc, design_circuit, explain_circuit, interactive_design, learn_aelm, review_circuit,
    select_parts, PromptRole, PromptText,
};
use aelm_mcp::tools::docs::topic;

fn texts(msgs: &[PromptText]) -> String {
    msgs.iter()
        .map(|m| m.text.clone())
        .collect::<Vec<_>>()
        .join("\n")
}

#[test]
fn test_design_circuit_includes_requirements_and_docs() {
    let msgs = design_circuit("a 5V regulator", Some("max 100mA"));
    let body = texts(&msgs);
    assert!(body.contains("a 5V regulator"));
    assert!(body.contains("max 100mA"));
    // DSL reference must be embedded.
    assert!(body.contains("module"));
}

#[test]
fn test_design_circuit_without_constraints() {
    let msgs = design_circuit("an RC filter", None);
    assert!(!msgs.is_empty());
    assert!(texts(&msgs).contains("an RC filter"));
}

#[test]
fn test_review_circuit_embeds_drc_and_mistakes() {
    let msgs = review_circuit("module M {}");
    let body = texts(&msgs);
    assert!(body.contains("module M {}"));
    assert!(body.to_lowercase().contains("drc"));
}

#[test]
fn test_debug_drc_with_codes() {
    let msgs = debug_drc("module M {}", Some("DRC-E001, DRC-W004"));
    assert!(texts(&msgs).contains("DRC-E001"));
}

#[test]
fn test_debug_drc_without_codes() {
    let msgs = debug_drc("module M {}", None);
    assert!(texts(&msgs).to_lowercase().contains("every drc"));
}

#[test]
fn test_learn_aelm_normalises_level() {
    assert!(texts(&learn_aelm("bogus")).contains("beginner"));
    assert!(texts(&learn_aelm("advanced")).contains("advanced"));
}

#[test]
fn test_select_parts_includes_requirements() {
    assert!(texts(&select_parts("low-noise op-amp")).contains("low-noise op-amp"));
}

#[test]
fn test_explain_circuit_includes_source() {
    assert!(texts(&explain_circuit("module X {}")).contains("module X {}"));
}

#[test]
fn test_interactive_design_includes_goal_and_docs() {
    let msgs = interactive_design("a debounced button input");
    let body = texts(&msgs);
    assert!(body.contains("a debounced button input"));
    assert!(body.contains("module"));
}

#[test]
fn test_learn_aelm_invalid_level_defaults_to_beginner() {
    let body = texts(&learn_aelm(""));
    assert!(
        body.contains("beginner"),
        "empty level should default to beginner"
    );
}

#[test]
fn design_messages_exactly() {
    let msgs = design_circuit("X", Some("Y"));
    assert_eq!(msgs.len(), 4);
    assert_eq!(msgs[0].role, PromptRole::Assistant);
    assert_eq!(msgs[1].role, PromptRole::User);
    assert!(msgs[1].text.starts_with(
        "You are designing an electronic circuit in the Aelm DSL.\n\nRequirements:\nX\n\nConstraints:\nY\n\nWorkflow: (1)"
    ));
    assert!(msgs[1].text.ends_with("Aelm does not rely on auto-layout."));
    let dsl = topic("dsl").unwrap().body;
    assert_eq!(msgs[2].text, format!("Aelm DSL reference:\n\n{dsl}"));
    let patterns = topic("patterns").unwrap().body;
    assert_eq!(msgs[3].text, format!("Placement and connection conventions:\n\n{patterns}"));
    let plain = design_circuit("X", None);
    assert!(plain[1].text.starts_with("You are designing an electronic circuit in the Aelm DSL.\n\nRequirements:\nX\n\nWorkflow:"));
}

#[test]
fn review_and_explain_fence_the_source() {
    let r = review_circuit("module A {}");
    assert_eq!(r[1].text, "Review this Aelm circuit:\n\n```aelm\nmodule A {}\n```");
    let e = explain_circuit("module B {}");
    assert_eq!(e.len(), 2);
    assert_eq!(e[1].text, "Explain how this circuit works, step by step:\n\n```aelm\nmodule B {}\n```");
}

#[test]
fn debug_focus_texts() {
    let with = debug_drc("S", Some("E1"));
    assert_eq!(
        with[1].text,
        "Debug the DRC issues in this circuit. Focus on these DRC codes: E1.\n\n```aelm\nS\n```"
    );
    let without = debug_drc("S", None);
    assert_eq!(
        without[1].text,
        "Debug the DRC issues in this circuit. Diagnose every DRC error and warning.\n\n```aelm\nS\n```"
    );
    assert_eq!(without.len(), 3);
}

#[test]
fn learn_levels() {
    assert_eq!(learn_aelm("intermediate")[1].text, "Teach me Aelm at the intermediate level.");
    assert_eq!(learn_aelm("Advanced")[1].text, "Teach me Aelm at the beginner level.");
    assert_eq!(learn_aelm("advanced")[0].role, PromptRole::Assistant);
}

#[test]
fn select_and_interactive_texts() {
    let s = select_parts("R");
    assert_eq!(s.len(), 2);
    assert_eq!(
        s[1].text,
        "Recommend Aelm parts for this requirement:\nR\n\nUse `list_parts` / `search_parts` to ground recommendations in the actual catalog."
    );
    let i = interactive_design("G");
    assert_eq!(i.len(), 4);
    assert!(i[1].text.starts_with("Design goal:\nG\n\nLoop each iteration:"));
    assert!(i[3].text.starts_with("Circuit patterns:\n\n"));
}

#[test]
fn doc_bodies_by_key() {
    assert_eq!(doc("drc"), topic("drc").unwrap().body);
    assert_eq!(doc("nope"), "");
}

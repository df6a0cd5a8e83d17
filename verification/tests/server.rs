use aelm_mcp::server::{instructions, scaffold_parts, unknown_resource, ScaffoldPartArg};
use aelm_mcp::startup::{default_log_filter, service_failure, start_failure};

#[test]
fn scaffold_parts_keep_order_and_fields() {
    let args = vec![
        ScaffoldPartArg { name: "R1".to_string(), part_type: "Resistor".to_string() },
        ScaffoldPartArg { name: "C1".to_string(), part_type: "Capacitor".to_string() },
        ScaffoldPartArg { name: "U1".to_string(), part_type: "OpAmp".to_string() },
    ];
    let parts = scaffold_parts(args);
    let names: Vec<&str> = parts.iter().map(|p| p.name.as_str()).collect();
    assert_eq!(names, vec!["R1", "C1", "U1"]);
    assert_eq!(parts[2].part_type, "OpAmp");
    assert!(scaffold_parts(vec![]).is_empty());
}

#[test]
fn server_texts() {
    assert!(instructions().starts_with("Aelm MCP server: design, validate, render, and analyze"));
    assert!(instructions().contains("`get_dsl_reference` first"));
    assert_eq!(unknown_resource("aelm://x"), "unknown resource: aelm://x");
}

#[test]
fn startup_texts() {
    assert_eq!(default_log_filter("debug"), "aelm_mcp=debug");
    assert_eq!(start_failure("eof").0, "failed to start MCP service: eof");
    assert_eq!(service_failure("closed").0, "MCP service error: closed");
}

use aelm_mcp::tools::generate::{build_skeleton, scaffold_source, ScaffoldPart};

fn parts() -> Vec<ScaffoldPart> {
    vec![
        ScaffoldPart {
            name: "R1".to_string(),
            part_type: "Resistor".to_string(),
        },
        ScaffoldPart {
            name: "C1".to_string(),
            part_type: "Capacitor".to_string(),
        },
    ]
}

#[test]
fn test_skeleton_has_version_header() {
    let s = build_skeleton("M", &parts());
    assert!(s.starts_with("# aelm-version:"));
}

#[test]
fn test_skeleton_first_part_absolute_placement() {
    let s = build_skeleton("M", &parts());
    assert!(s.contains("R1: Resistor place: (0, 0)"));
}

#[test]
fn test_skeleton_subsequent_part_relative_placement() {
    let s = build_skeleton("M", &parts());
    assert!(s.contains("C1: Capacitor place: R1(4, 0)"));
}

#[test]
fn test_skeleton_wraps_in_module() {
    let s = build_skeleton("MyModule", &parts());
    assert!(s.contains("module MyModule {"));
    assert!(s.contains("instances {"));
}

#[test]
fn test_skeleton_single_part() {
    let single = vec![ScaffoldPart {
        name: "U1".to_string(),
        part_type: "OpAmp".to_string(),
    }];
    let s = build_skeleton("Amp", &single);
    assert!(s.contains("U1: OpAmp place: (0, 0)"));
    assert!(!s.contains("place: U1"));
}

#[test]
fn test_skeleton_empty_parts_produces_empty_instances() {
    let s = build_skeleton("Empty", &[]);
    assert!(s.contains("module Empty {"));
    assert!(s.contains("instances {"));
    let instances_block = s.split("instances {").nth(1).unwrap();
    assert!(
        !instances_block.contains("place:"),
        "no instances should be generated"
    );
}

#[test]
fn skeleton_exact_text() {
    let mut ps = parts();
    ps.push(ScaffoldPart {
        name: "D1".to_string(),
        part_type: "Diode".to_string(),
    });
    assert_eq!(
        build_skeleton("M", &ps),
        "# aelm-version: 0.5.0\nmodule M {\n    instances {\n        R1: Resistor place: (0, 0)\n        C1: Capacitor place: R1(4, 0)\n        D1: Diode place: R1(8, 0)\n    }\n}\n"
    );
}

#[test]
fn scaffold_refuses_no_parts() {
    assert_eq!(
        scaffold_source("M", &[]).unwrap_err(),
        "scaffold_circuit requires at least one part"
    );
    assert_eq!(scaffold_source("M", &parts()).unwrap(), build_skeleton("M", &parts()));
}

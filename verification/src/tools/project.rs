//! Project analysis tools backed by `aelm analyze *`: the commands they run.
use vstd::prelude::*;

use crate::text::texts;
use crate::tools::command::{argv, opt_text, option_args, push_arg, push_option};

verus! {

/// `analyze_project`: holistic summary (module stats, parts, DRC,
/// complexity) — `aelm analyze summary --stdin --json`.
pub fn analyze_project_args() -> (r: Vec<String>)
    ensures
        texts(r@) == seq!["analyze"@, "summary"@, "--stdin"@, "--json"@],
{
    argv(&["analyze", "summary", "--stdin", "--json"])
}

/// `aelm analyze <what> --stdin --json [--module <m>]`, for `extract_netlist`
/// (`netlist`), `extract_bom` (`bom`) and `analyze_connectivity`
/// (`connectivity`).
pub fn analysis_args(what: &str, module: Option<&str>) -> (r: Vec<String>)
    ensures
        texts(r@) == seq!["analyze"@, what@, "--stdin"@, "--json"@] + option_args("--module"@, opt_text(module)),
{
    let mut r = argv(&["analyze"]);
    push_arg(&mut r, what);
    push_arg(&mut r, "--stdin");
    push_arg(&mut r, "--json");
    push_option(&mut r, "--module", module);
    r
}

/// `extract_subcircuit`: pull a set of instances into a standalone module —
/// `aelm analyze extract --stdin --json --instances <A,B,C> [--module <m>]`.
pub fn extract_args(instances: &str, module: Option<&str>) -> (r: Vec<String>)
    ensures
        texts(r@) == seq!["analyze"@, "extract"@, "--stdin"@, "--json"@, "--instances"@, instances@]
            + option_args("--module"@, opt_text(module)),
{
    let mut r = argv(&["analyze", "extract", "--stdin", "--json", "--instances"]);
    push_arg(&mut r, instances);
    push_option(&mut r, "--module", module);
    r
}

} // verus!

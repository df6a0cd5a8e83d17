//! Symbol template tools: the commands they run.
use vstd::prelude::*;

use crate::text::texts;
use crate::tools::command::{argv, opt_text, option_args, push_arg, push_option};

verus! {

/// `list_symbols`: enumerate built-in and user-defined symbol templates —
/// `aelm symbols list --json [--category <c>]`.
pub fn list_symbols_args(category: Option<&str>) -> (r: Vec<String>)
    ensures
        texts(r@) == seq!["symbols"@, "list"@, "--json"@] + option_args("--category"@, opt_text(category)),
{
    let mut r = argv(&["symbols", "list", "--json"]);
    push_option(&mut r, "--category", category);
    r
}

/// `get_symbol_info`: detailed symbol info (pins, bounds, draw commands) —
/// `aelm symbols info <name> --json`.
pub fn symbol_info_args(name: &str) -> (r: Vec<String>)
    ensures
        texts(r@) == seq!["symbols"@, "info"@, name@, "--json"@],
{
    let mut r = argv(&["symbols", "info"]);
    push_arg(&mut r, name);
    push_arg(&mut r, "--json");
    r
}

} // verus!

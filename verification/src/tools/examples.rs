//! Example circuit tools: the commands they run.
use vstd::prelude::*;

use crate::text::texts;
use crate::tools::command::{argv, opt_text, option_args, push_arg, push_option};

verus! {

/// `list_examples`: enumerate bundled example circuits —
/// `aelm examples list --json [--category <c>]`.
pub fn list_examples_args(category: Option<&str>) -> (r: Vec<String>)
    ensures
        texts(r@) == seq!["examples"@, "list"@, "--json"@] + option_args("--category"@, opt_text(category)),
{
    let mut r = argv(&["examples", "list", "--json"]);
    push_option(&mut r, "--category", category);
    r
}

/// `get_example`: an example's source, optionally with a rendered SVG —
/// `aelm examples get <name> --json [--render]`.
pub fn example_args(name: &str, render: bool) -> (r: Vec<String>)
    ensures
        texts(r@) == seq!["examples"@, "get"@, name@, "--json"@] + if render {
            seq!["--render"@]
        } else {
            Seq::empty()
        },
{
    let mut r = argv(&["examples", "get"]);
    push_arg(&mut r, name);
    push_arg(&mut r, "--json");
    if render {
        push_arg(&mut r, "--render");
    }
    r
}

} // verus!

//! Parts catalog tools: the commands they run.
use vstd::prelude::*;

use crate::text::{decimal, texts, u64_text};
use crate::tools::command::{argv, opt_text, option_args, push_arg, push_option};

verus! {

/// `list_parts`: enumerate parts from stdlib and user libraries —
/// `aelm parts list --json [--category <c>]`.
pub fn list_parts_args(category: Option<&str>) -> (r: Vec<String>)
    ensures
        texts(r@) == seq!["parts"@, "list"@, "--json"@] + option_args("--category"@, opt_text(category)),
{
    let mut r = argv(&["parts", "list", "--json"]);
    push_option(&mut r, "--category", category);
    r
}

/// `search_parts`: fuzzy-search the part catalog —
/// `aelm parts search <query> --json --limit <n>`, 20 results by default.
pub fn search_parts_args(query: &str, limit: Option<u32>) -> (r: Vec<String>)
    ensures
        texts(r@) == seq!["parts"@, "search"@, query@, "--json"@, "--limit"@, decimal(
            match limit {
                Some(n) => n as nat,
                None => 20,
            },
        )],
{
    let n: u32 = match limit {
        Some(n) => n,
        None => 20,
    };
    let limit_str = u64_text(n as u64);
    let mut r = argv(&["parts", "search"]);
    push_arg(&mut r, query);
    push_arg(&mut r, "--json");
    push_arg(&mut r, "--limit");
    push_arg(&mut r, limit_str.as_str());
    r
}

/// `get_part_info`: detailed part info, optionally with inline symbol SVG —
/// `aelm parts info <name> --json [--render-symbol]`.
pub fn part_info_args(name: &str, render_symbol: bool) -> (r: Vec<String>)
    ensures
        texts(r@) == seq!["parts"@, "info"@, name@, "--json"@] + if render_symbol {
            seq!["--render-symbol"@]
        } else {
            Seq::empty()
        },
{
    let mut r = argv(&["parts", "info"]);
    push_arg(&mut r, name);
    push_arg(&mut r, "--json");
    if render_symbol {
        push_arg(&mut r, "--render-symbol");
    }
    r
}

} // verus!

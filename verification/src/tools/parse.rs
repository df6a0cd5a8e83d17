//! Parse / validate / format tools: the commands they run.
use vstd::prelude::*;

use crate::cli_runner::lossy_text;
use crate::cli_runner::utf8_lossy;
use crate::text::texts;
use crate::tools::command::argv;
use crate::tools::output::{is_text, text_result, ToolOutput};

verus! {

/// `parse`: parse source into structured IR — `aelm parse --stdin --json`.
pub fn parse_args() -> (r: Vec<String>)
    ensures
        texts(r@) == seq!["parse"@, "--stdin"@, "--json"@],
{
    let r = argv(&["parse", "--stdin", "--json"]);
    r
}

/// `validate`: parse plus DRC validation — `aelm check --stdin --json`.
pub fn validate_args() -> (r: Vec<String>)
    ensures
        texts(r@) == seq!["check"@, "--stdin"@, "--json"@],
{
    argv(&["check", "--stdin", "--json"])
}

/// `format`: format source — `aelm fmt --stdin`, which writes the formatted
/// source to stdout.
pub fn format_args() -> (r: Vec<String>)
    ensures
        texts(r@) == seq!["fmt"@, "--stdin"@],
{
    argv(&["fmt", "--stdin"])
}

/// The answer of `format` once the CLI succeeded: its stdout as text.
pub fn format_output(stdout: &[u8]) -> (r: ToolOutput)
    ensures
        !r.is_error,
        r.content@.len() == 1,
        is_text(r.content@[0], utf8_lossy(stdout@)),
{
    text_result(lossy_text(stdout))
}

} // verus!

//! Library tools: validate a `.alib`, and compile an SVG into a symbol block.
use vstd::prelude::*;

use crate::text::texts;
use crate::tools::command::{argv, push_arg};

verus! {

/// `validate_library`: validate a `.alib` file or directory —
/// `aelm lib validate <path> --json`.
pub fn validate_library_args(path: &str) -> (r: Vec<String>)
    ensures
        texts(r@) == seq!["lib"@, "validate"@, path@, "--json"@],
{
    let mut r = argv(&["lib", "validate"]);
    push_arg(&mut r, path);
    push_arg(&mut r, "--json");
    r
}

/// `compile_svg_to_symbol`: compile the SVG file `src` into an Aelm symbol
/// block written to `out` — `aelm lib compile <src> -o <out> --to-aelm`.
pub fn compile_svg_args(src: &str, out: &str) -> (r: Vec<String>)
    ensures
        texts(r@) == seq!["lib"@, "compile"@, src@, "-o"@, out@, "--to-aelm"@],
{
    let mut r = argv(&["lib", "compile"]);
    push_arg(&mut r, src);
    push_arg(&mut r, "-o");
    push_arg(&mut r, out);
    push_arg(&mut r, "--to-aelm");
    r
}

} // verus!

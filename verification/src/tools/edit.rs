//! Edit tools: dry-run `aelm apply-*` operations that return modified source.
//!
//! `aelm apply-*` reads a file path (it has no `--stdin`), so the application
//! writes the incoming source to a private temporary file and runs the
//! command with `--dry-run --json`; `--dry-run` guarantees the file is never
//! changed. The modified source and a line diff come back in the envelope.
use vstd::prelude::*;

use crate::cli_runner::str_texts;
use crate::text::{i64_text, signed_decimal, texts};
use crate::tools::command::push_arg;

verus! {

/// `aelm <subcommand> <file> <extra...> --dry-run --json`.
pub fn apply_args(subcommand: &str, path: &str, extra: &[&str]) -> (r: Vec<String>)
    ensures
        texts(r@) == seq![subcommand@, path@] + str_texts(extra@) + seq!["--dry-run"@, "--json"@],
{
    let mut r: Vec<String> = Vec::new();
    push_arg(&mut r, subcommand);
    push_arg(&mut r, path);
    let n = extra.len();
    let mut i: usize = 0;
    while i < n
        invariant
            n == extra@.len(),
            0 <= i <= n,
            texts(r@) == seq![subcommand@, path@] + str_texts(extra@).take(i as int),
        decreases n - i,
    {
        push_arg(&mut r, extra[i]);
        assert(str_texts(extra@).take(i + 1) =~= str_texts(extra@).take(i as int).push(extra@[i as int]@));
        i = i + 1;
    }
    assert(str_texts(extra@).take(n as int) =~= str_texts(extra@));
    push_arg(&mut r, "--dry-run");
    push_arg(&mut r, "--json");
    r
}

/// `apply_rotate`: rotate an instance by `degrees` —
/// `aelm apply-rotate <file> <instance> <degrees> --dry-run --json`.
pub fn rotate_args(path: &str, instance: &str, degrees: i64) -> (r: Vec<String>)
    ensures
        texts(r@) == seq!["apply-rotate"@, path@, instance@, signed_decimal(degrees as int), "--dry-run"@, "--json"@],
{
    let d = i64_text(degrees);
    let r = apply_args("apply-rotate", path, &[instance, d.as_str()]);
    r
}

/// `apply_mirror`: mirror an instance across an axis (`x` or `y`).
pub fn mirror_args(path: &str, instance: &str, axis: &str) -> (r: Vec<String>)
    ensures
        texts(r@) == seq!["apply-mirror"@, path@, instance@, axis@, "--dry-run"@, "--json"@],
{
    apply_args("apply-mirror", path, &[instance, axis])
}

/// `apply_add_connection`: add a connection between two pins.
pub fn add_connection_args(path: &str, from_pin: &str, to_pin: &str) -> (r: Vec<String>)
    ensures
        texts(r@) == seq!["apply-add-connection"@, path@, from_pin@, to_pin@, "--dry-run"@, "--json"@],
{
    apply_args("apply-add-connection", path, &[from_pin, to_pin])
}

/// `apply_delete_connection`: remove a connection between two pins.
pub fn delete_connection_args(path: &str, from_pin: &str, to_pin: &str) -> (r: Vec<String>)
    ensures
        texts(r@) == seq!["apply-delete-connection"@, path@, from_pin@, to_pin@, "--dry-run"@, "--json"@],
{
    apply_args("apply-delete-connection", path, &[from_pin, to_pin])
}

} // verus!

//! Error types for invoking the `aelm` CLI and interpreting its output.
use vstd::prelude::*;

use crate::text::{owned, push_signed_decimal, push_str, signed_decimal};

verus! {

/// `std::io::Error`, carried unchanged inside [`CliError`].
#[verifier::external_type_specification]
#[verifier::external_body]
pub struct ExIoError(std::io::Error);

/// Errors raised while invoking the `aelm` CLI or interpreting its output.
#[derive(Debug)]
pub enum CliError {
    /// The `aelm` binary could not be located or spawned.
    Spawn { path: String, source: std::io::Error },
    /// The CLI exited with a non-zero status. `stderr` carries the human-readable
    /// diagnostic; `stdout` may still hold a JSON envelope when `--json` was used.
    NonZeroExit { code: i32, stdout: String, stderr: String },
    /// The CLI's stdout could not be parsed as the expected JSON shape.
    JsonParse(String),
    /// I/O error while writing to the child's stdin or reading its output.
    Io(std::io::Error),
}

/// The text of an I/O error: calls `std::io::Error`'s `Display`. Nothing is
/// stated of the result, which for operating-system errors depends on the
/// platform's error descriptions.
#[verifier::external_body]
fn io_error_text(e: &std::io::Error) -> String {
    e.to_string()
}

/// The message of an error, with `detail` standing for the text of a carried
/// I/O error.
pub open spec fn message_with(e: CliError, detail: Seq<char>) -> Seq<char> {
    match e {
        CliError::Spawn { path, .. } => "failed to run aelm binary at "@ + path@ + ": "@ + detail,
        CliError::NonZeroExit { code, stderr, .. } => "aelm exited with status "@ + signed_decimal(
            code as int,
        ) + ": "@ + stderr@,
        CliError::JsonParse(m) => "failed to parse aelm JSON output: "@ + m@,
        CliError::Io(_) => "I/O error communicating with aelm: "@ + detail,
    }
}

/// Whether the error carries an I/O error whose text goes into its message.
pub open spec fn carries_io(e: CliError) -> bool {
    e is Spawn || e is Io
}

/// The message of an error, for some text of its carried I/O error; the text
/// does not matter when it carries none.
pub open spec fn is_message_of(e: CliError, m: Seq<char>) -> bool {
    &&& exists|detail: Seq<char>| m == message_with(e, detail)
    &&& !carries_io(e) ==> m == message_with(e, Seq::empty())
}

/// What [`CliError::user_message`] gives: the stderr of a non-zero exit when
/// there is any, else the message.
pub open spec fn is_user_message_of(e: CliError, m: Seq<char>) -> bool {
    match e {
        CliError::NonZeroExit { stderr, .. } if stderr@.len() > 0 => m == stderr@,
        _ => is_message_of(e, m),
    }
}

impl CliError {
    /// The error's message (what its `Display` would print).
    pub fn to_string(&self) -> (r: String)
        ensures
            is_message_of(*self, r@),
    {
        match self {
            CliError::Spawn { path, source } => {
                let mut r = owned("failed to run aelm binary at ");
                push_str(&mut r, path.as_str());
                push_str(&mut r, ": ");
                let detail = io_error_text(source);
                push_str(&mut r, detail.as_str());
                assert(r@ == message_with(*self, detail@));
                r
            },
            CliError::NonZeroExit { code, stderr, .. } => {
                let mut r = owned("aelm exited with status ");
                push_signed_decimal(&mut r, *code as i64);
                push_str(&mut r, ": ");
                push_str(&mut r, stderr.as_str());
                assert(r@ == message_with(*self, Seq::empty()));
                r
            },
            CliError::JsonParse(m) => {
                let mut r = owned("failed to parse aelm JSON output: ");
                push_str(&mut r, m.as_str());
                assert(r@ == message_with(*self, Seq::empty()));
                r
            },
            CliError::Io(e) => {
                let mut r = owned("I/O error communicating with aelm: ");
                let detail = io_error_text(e);
                push_str(&mut r, detail.as_str());
                assert(r@ == message_with(*self, detail@));
                r
            },
        }
    }

    /// Render the error as a single user-facing string suitable for an MCP
    /// tool error payload (returned via the `isError` flag, never as a
    /// protocol error): the CLI's own stderr when a non-zero exit produced
    /// any, otherwise the error's message.
    pub fn user_message(&self) -> (r: String)
        ensures
            is_user_message_of(*self, r@),
    {
        match self {
            CliError::NonZeroExit { stderr, .. } if !stderr.as_str().is_empty() => stderr.clone(),
            other => other.to_string(),
        }
    }
}

impl From<std::io::Error> for CliError {
    fn from(err: std::io::Error) -> (r: Self) {
        CliError::Io(err)
    }
}

impl vstd::std_specs::convert::FromSpecImpl<std::io::Error> for CliError {
    open spec fn obeys_from_spec() -> bool {
        true
    }

    open spec fn from_spec(err: std::io::Error) -> Self {
        CliError::Io(err)
    }
}

} // verus!

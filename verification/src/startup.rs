//! What the server program decides before and after it serves: the log
//! filter it installs and the failures that end it.
use vstd::prelude::*;

use crate::text::{owned, push_str};

verus! {

/// A failure that ends the server, with its message.
#[derive(Debug)]
pub struct Error(pub String);

/// The failure to bring the MCP service up, with the transport's reason.
pub fn start_failure(detail: &str) -> (e: Error)
    ensures
        e.0@ == "failed to start MCP service: "@ + detail@,
{
    let mut m = owned("failed to start MCP service: ");
    push_str(&mut m, detail);
    Error(m)
}

/// The failure of the running MCP service, with its reason.
pub fn service_failure(detail: &str) -> (e: Error)
    ensures
        e.0@ == "MCP service error: "@ + detail@,
{
    let mut m = owned("MCP service error: ");
    push_str(&mut m, detail);
    Error(m)
}

/// The log filter used when the environment sets none: this crate's events
/// at the given level.
pub fn default_log_filter(level: &str) -> (r: String)
    ensures
        r@ == "aelm_mcp="@ + level@,
{
    let mut r = owned("aelm_mcp=");
    push_str(&mut r, level);
    r
}

} // verus!

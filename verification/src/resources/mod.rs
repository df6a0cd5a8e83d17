//! MCP resources served by the library.
pub mod docs;

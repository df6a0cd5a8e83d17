//! The computing half of the MCP tools: what each tool hands to the `aelm`
//! CLI and how its answer is read back.
pub mod advanced;
pub mod base64;
pub mod command;
pub mod doc_text;
pub mod docs;
pub mod edit;
pub mod examples;
pub mod generate;
pub mod library;
pub mod output;
pub mod parse;
pub mod parts;
pub mod payload;
pub mod project;
pub mod render;
pub mod symbols;

pub use base64::base64_encode;
pub use output::{error_result, svg_result};

//! aelm-mcp: the verified core of a Model Context Protocol server for the
//! Aelm circuit-CAD toolchain.
//!
//! Every request is eventually fulfilled by the `aelm` command-line tool. This
//! crate holds the parts that decide and compute: the argument vectors handed
//! to the CLI, the interpretation of its answers, the embedded reference
//! documents, the prompt texts and the circuit comparisons.
pub mod cli_runner;
pub mod error;
pub mod json;
pub mod order;
pub mod prompts;
pub mod resources;
pub mod server;
pub mod startup;
pub mod text;
pub mod text_map;
pub mod tools;

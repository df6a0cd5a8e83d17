# aelm-mcp

A Model Context Protocol server for the Aelm circuit-CAD toolchain. Every
request is fulfilled by running the `aelm` command-line tool; the server
decides what to run and how to read the answer.

## Layout

- `src/` — the library, written in Verus and verified. It holds everything
  that decides or computes: the argument vectors handed to the CLI
  (`tools::*`), the classification of a finished CLI run and the recovery of
  its JSON envelope (`cli_runner`, `error`), the reading of parse results
  (`json`, `tools::advanced`: instance maps, structural diffs, placement
  hints, part-count similarity and ranking; `tools::payload`: their JSON
  answers), the embedded reference documents
  and their resources (`tools::docs`, `resources`), the prompt texts
  (`prompts`), the scaffold generator (`tools::generate`), base64
  (`tools::base64`), and an ordered string-keyed map (`text_map`, `order`).
  Contracts are stated over mathematical models (`Seq`, `Map`, `Set`) and the
  laws that relate several operations are public proof functions.
- `tests/` — ordinary Rust tests of the library on concrete values.
- `app/` — the server program: command-line options, logging, spawning the
  `aelm` process, temp files, JSON (de)serialisation and the MCP protocol
  (via `rmcp`). The argument vectors, the reading of the CLI's answers and
  the tools' answers (including their JSON payloads) come from the library;
  the program keeps the I/O, the protocol plumbing, serialisation and the
  one floating-point value (the similarity score).

//! The parameters of the server's tools and prompts, as the library reads
//! them, and the texts the server itself answers with. The application
//! deserialises requests into its own copies of these types (which carry the
//! serde and schema derives) and converts them.
use vstd::prelude::*;

use crate::text::{owned, push_str};
use crate::tools::generate::ScaffoldPart;

verus! {

// ── Tool parameters ─────────────────────────────────────────────────────────

#[derive(Debug)]
pub struct SourceArgs {
    /// Aelm circuit source (`.aelm` text).
    pub source: String,
}

#[derive(Debug)]
pub struct RenderArgs {
    /// Aelm circuit source (`.aelm` text).
    pub source: String,
    /// Theme: `light` (default) or `dark`.
    pub theme: Option<String>,
}

#[derive(Debug)]
pub struct RenderPngArgs {
    /// Aelm circuit source (`.aelm` text).
    pub source: String,
    /// PNG resolution in DPI (default 150).
    pub dpi: Option<u32>,
    /// Theme: `light` (default) or `dark`.
    pub theme: Option<String>,
}

#[derive(Debug)]
pub struct NameArgs {
    /// The part / symbol / example name.
    pub name: String,
}

#[derive(Debug)]
pub struct CategoryArgs {
    /// Optional category filter.
    pub category: Option<String>,
}

#[derive(Debug)]
pub struct SearchArgs {
    /// Search query.
    pub query: String,
    /// Maximum number of results (default 20).
    pub limit: Option<u32>,
}

#[derive(Debug)]
pub struct PartInfoArgs {
    /// Part name.
    pub name: String,
    /// Include an inline SVG rendering of the part's symbol.
    pub render_symbol: bool,
}

#[derive(Debug)]
pub struct ExampleGetArgs {
    /// Example name.
    pub name: String,
    /// Include a rendered SVG of the example.
    pub render: bool,
}

#[derive(Debug)]
pub struct DocArgs {
    /// Topic key: `dsl`, `cli`, `style`, `patterns`, `drc`, `mistakes`.
    pub topic: Option<String>,
}

#[derive(Debug)]
pub struct AnalyzeArgs {
    /// Aelm circuit source (`.aelm` text).
    pub source: String,
    /// Restrict analysis to a single module by name.
    pub module: Option<String>,
}

#[derive(Debug)]
pub struct RotateArgs {
    /// Aelm circuit source (`.aelm` text).
    pub source: String,
    /// Instance name.
    pub instance: String,
    /// Rotation in degrees.
    pub degrees: i64,
}

#[derive(Debug)]
pub struct MirrorArgs {
    /// Aelm circuit source (`.aelm` text).
    pub source: String,
    /// Instance name.
    pub instance: String,
    /// Mirror axis: `x` or `y`.
    pub axis: String,
}

#[derive(Debug)]
pub struct ConnectionArgs {
    /// Aelm circuit source (`.aelm` text).
    pub source: String,
    /// Source pin (e.g. `R1.p2`).
    pub from_pin: String,
    /// Destination pin (e.g. `C1.p1`).
    pub to_pin: String,
}

#[derive(Debug)]
pub struct ScaffoldArgs {
    /// Module name for the generated skeleton.
    pub module: String,
    /// Instances to scaffold, as `{ name, type_name }` objects.
    pub parts: Vec<ScaffoldPartArg>,
}

#[derive(Debug)]
pub struct ScaffoldPartArg {
    /// Instance name (e.g. `R1`).
    pub name: String,
    /// Part type (e.g. `Resistor`); `type_name` on the wire.
    pub part_type: String,
}

// ── Prompt parameters ───────────────────────────────────────────────────────

#[derive(Debug)]
pub struct DesignArgs {
    /// What to design (requirements in natural language).
    pub description: String,
    /// Optional constraints (budget, size, voltage, ...).
    pub constraints: Option<String>,
}

#[derive(Debug)]
pub struct SourceArg {
    /// Aelm circuit source (`.aelm` text).
    pub source: String,
}

#[derive(Debug)]
pub struct DebugArgs {
    /// Aelm circuit source (`.aelm` text).
    pub source: String,
    /// Optional comma-separated DRC codes to focus on.
    pub error_codes: Option<String>,
}

#[derive(Debug)]
pub struct RequirementsArg {
    /// Design requirements for part selection.
    pub requirements: String,
}

#[derive(Debug)]
pub struct LevelArg {
    /// Tutorial level: `beginner`, `intermediate`, or `advanced`.
    pub level: String,
}

#[derive(Debug)]
pub struct GoalArg {
    /// The design goal to iterate toward.
    pub goal: String,
}

// ── Further tool parameters ─────────────────────────────────────────────────

#[derive(Debug)]
pub struct ExtractArgs {
    /// Aelm circuit source (`.aelm` text).
    pub source: String,
    /// Comma-separated instance names to extract (e.g. `R1,R2,C1`).
    pub instances: String,
    /// Restrict to a single module by name.
    pub module: Option<String>,
}

#[derive(Debug)]
pub struct LibraryPathArg {
    /// Path to a `.alib` file or a directory of them.
    pub path: String,
}

#[derive(Debug)]
pub struct SvgArg {
    /// SVG artwork to compile into a symbol block.
    pub svg: String,
}

#[derive(Debug)]
pub struct DiffArgs {
    /// The "before" circuit source.
    pub before: String,
    /// The "after" circuit source.
    pub after: String,
}

#[derive(Debug)]
pub struct BatchArgs {
    /// Circuit sources to render concurrently.
    pub sources: Vec<String>,
}

#[derive(Debug)]
pub struct QueryArg {
    /// Search query (e.g. `voltage divider`, `low-pass filter`).
    pub query: String,
}

#[derive(Debug)]
pub struct SimilarArgs {
    /// The reference circuit source.
    pub source: String,
    /// Candidate circuit sources to compare against.
    pub candidates: Vec<String>,
}

// ── Conversions and texts ───────────────────────────────────────────────────

/// The instances that `scaffold_circuit` asks for, each with the same name
/// and part type, in the same order.
pub fn scaffold_parts(args: Vec<ScaffoldPartArg>) -> (r: Vec<ScaffoldPart>)
    ensures
        r@.len() == args@.len(),
        forall|i: int|
            0 <= i < args@.len() ==> (#[trigger] r@[i]).name@ == args@[i].name@ && r@[i].part_type@
                == args@[i].part_type@,
{
    let ghost all = args@;
    let mut r: Vec<ScaffoldPart> = Vec::new();
    for a in it: args.into_iter()
        invariant
            it.seq() == all,
            r@.len() == it.index(),
            forall|i: int|
                0 <= i < r@.len() ==> (#[trigger] r@[i]).name@ == all[i].name@ && r@[i].part_type@
                    == all[i].part_type@,
    {
        r.push(ScaffoldPart { name: a.name, part_type: a.part_type });
    }
    r
}

/// The instructions the server gives to its clients.
pub open spec fn instructions_text() -> Seq<char> {
    "Aelm MCP server: design, validate, render, and analyze text-based electronic circuits. Use `get_dsl_reference` first to learn the DSL, `list_parts` / `list_symbols` to discover the library, and `validate` / `render_svg` to check your work."@
}

/// The server's instructions to its clients.
pub fn instructions() -> (r: String)
    ensures
        r@ == instructions_text(),
{
    owned(
        "Aelm MCP server: design, validate, render, and analyze text-based electronic circuits. Use `get_dsl_reference` first to learn the DSL, `list_parts` / `list_symbols` to discover the library, and `validate` / `render_svg` to check your work.",
    )
}

/// The message of the answer to a request for a resource that does not exist.
pub fn unknown_resource(uri: &str) -> (r: String)
    ensures
        r@ == "unknown resource: "@ + uri@,
{
    let mut r = owned("unknown resource: ");
    push_str(&mut r, uri);
    r
}

} // verus!

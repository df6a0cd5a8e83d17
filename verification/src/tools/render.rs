//! Render tools: a full circuit to SVG/PNG, and a single symbol to SVG.
//!
//! Circuit rendering goes through `aelm pipeline --stages render`, which
//! returns the image in the JSON envelope's `data.render.image_base64` field:
//! for SVG that field carries the raw XML, for PNG standard base64.
use vstd::prelude::*;

use crate::cli_runner::{lossy_text, utf8_lossy};
use crate::error::CliError;
use crate::json::{json_get, json_str, Json};
use crate::text::{decimal, owned, str_eq, texts, u64_text};
use crate::tools::command::{argv, push_arg};
use crate::tools::output::{error_result, error_text, is_image, is_text, reports, shows_svg, svg_result, ToolContent, ToolOutput};

verus! {

/// The theme handed to the CLI: `dark` when asked for, `light` otherwise.
pub open spec fn theme_text(theme: Option<Seq<char>>) -> Seq<char> {
    match theme {
        Some(t) => if t == "dark"@ {
            "dark"@
        } else {
            "light"@
        },
        None => "light"@,
    }
}

/// Map a caller-supplied theme to the CLI's `--theme` value, defaulting to light.
pub fn theme_arg(theme: Option<&str>) -> (r: &'static str)
    ensures
        r@ == theme_text(
            match theme {
                Some(t) => Some(t@),
                None => None,
            },
        ),
{
    match theme {
        Some(t) => if str_eq(t, "dark") {
            "dark"
        } else {
            "light"
        },
        None => "light",
    }
}

/// `env.data.render.<key>`, when it is a string.
pub open spec fn render_text(env: Json, key: Seq<char>) -> Option<Seq<char>> {
    match json_get(env, "data"@) {
        Some(d) => match json_get(d, "render"@) {
            Some(r) => match json_get(r, key) {
                Some(v) => json_str(v),
                None => None,
            },
            None => None,
        },
        None => None,
    }
}

/// Extract `data.render.<key>` from a pipeline JSON envelope.
pub fn render_field<'a>(env: &'a Json, key: &str) -> (r: Option<&'a String>)
    ensures
        match r {
            Some(s) => render_text(*env, key@) == Some(s@),
            None => render_text(*env, key@) is None,
        },
{
    match env.get("data") {
        Some(d) => match d.get("render") {
            Some(r) => match r.get(key) {
                Some(v) => v.as_str(),
                None => None,
            },
            None => None,
        },
        None => None,
    }
}

/// `render_svg`: `aelm pipeline --stdin --stages render --render-format svg
/// --theme <theme> --json`.
pub fn render_svg_args(theme: Option<&str>) -> (r: Vec<String>)
    ensures
        texts(r@) == seq![
            "pipeline"@,
            "--stdin"@,
            "--stages"@,
            "render"@,
            "--render-format"@,
            "svg"@,
            "--theme"@,
            theme_text(
                match theme {
                    Some(t) => Some(t@),
                    None => None,
                },
            ),
            "--json"@,
        ],
{
    let mut r = argv(&["pipeline", "--stdin", "--stages", "render", "--render-format", "svg", "--theme"]);
    push_arg(&mut r, theme_arg(theme));
    push_arg(&mut r, "--json");
    r
}

/// `render_png`: `aelm pipeline --stdin --stages render --render-format png
/// --dpi <dpi> --theme <theme> --json`, at 150 DPI by default.
pub fn render_png_args(dpi: Option<u32>, theme: Option<&str>) -> (r: Vec<String>)
    ensures
        texts(r@) == seq![
            "pipeline"@,
            "--stdin"@,
            "--stages"@,
            "render"@,
            "--render-format"@,
            "png"@,
            "--dpi"@,
            decimal(
                match dpi {
                    Some(d) => d as nat,
                    None => 150,
                },
            ),
            "--theme"@,
            theme_text(
                match theme {
                    Some(t) => Some(t@),
                    None => None,
                },
            ),
            "--json"@,
        ],
{
    let d: u32 = match dpi {
        Some(d) => d,
        None => 150,
    };
    let dpi_str = u64_text(d as u64);
    let mut r = argv(&["pipeline", "--stdin", "--stages", "render", "--render-format", "png", "--dpi"]);
    push_arg(&mut r, dpi_str.as_str());
    push_arg(&mut r, "--theme");
    push_arg(&mut r, theme_arg(theme));
    push_arg(&mut r, "--json");
    r
}

/// `render_symbol`: `aelm symbols render <name>` (SVG on stdout).
pub fn render_symbol_args(name: &str) -> (r: Vec<String>)
    ensures
        texts(r@) == seq!["symbols"@, "render"@, name@],
{
    let mut r = argv(&["symbols", "render"]);
    push_arg(&mut r, name);
    r
}

/// The message when a render produced no image.
pub open spec fn no_image_text() -> Seq<char> {
    "render produced no image; see diagnostics"@
}

/// The answer of `render_svg` for what the CLI answered: the SVG (as text
/// and image), or an error when no image came back or the CLI failed.
pub fn svg_answer(run: &Result<Json, CliError>) -> (r: ToolOutput)
    ensures
        match run {
            Ok(env) => match render_text(*env, "image_base64"@) {
                Some(svg) => shows_svg(r, svg),
                None => r.is_error && r.content@.len() == 1 && is_text(r.content@[0], no_image_text()),
            },
            Err(e) => reports(r, *e),
        },
{
    match run {
        Ok(env) => match render_field(env, "image_base64") {
            Some(svg) => svg_result(svg.as_str()),
            None => error_text(owned("render produced no image; see diagnostics")),
        },
        Err(e) => error_result(e),
    }
}

/// The answer of `render_png` for what the CLI answered: the PNG as an
/// image (the pipeline already base64-encodes it), or an error.
pub fn png_answer(run: &Result<Json, CliError>) -> (r: ToolOutput)
    ensures
        match run {
            Ok(env) => match render_text(*env, "image_base64"@) {
                Some(b64) => !r.is_error && r.content@.len() == 1 && is_image(
                    r.content@[0],
                    b64,
                    "image/png"@,
                ),
                None => r.is_error && r.content@.len() == 1 && is_text(r.content@[0], no_image_text()),
            },
            Err(e) => reports(r, *e),
        },
{
    match run {
        Ok(env) => match render_field(env, "image_base64") {
            Some(b64) => ToolOutput {
                content: vec![ToolContent::Image { data: b64.clone(), mime_type: owned("image/png") }],
                is_error: false,
            },
            None => error_text(owned("render produced no image; see diagnostics")),
        },
        Err(e) => error_result(e),
    }
}

/// The answer of `render_symbol` once the CLI succeeded: its stdout, decoded,
/// as an SVG answer.
pub fn symbol_answer(stdout: &[u8]) -> (r: ToolOutput)
    ensures
        shows_svg(r, utf8_lossy(stdout@)),
{
    let svg = lossy_text(stdout);
    svg_result(svg.as_str())
}

} // verus!

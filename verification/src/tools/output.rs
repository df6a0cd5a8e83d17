//! What a tool answers: a list of text and image contents, and whether the
//! answer reports a failure. The application turns it into an MCP result.
use vstd::prelude::*;
use vstd::utf8::encode_utf8;

use crate::error::{is_user_message_of, CliError};
use crate::text::owned;
use crate::tools::base64::{base64_encode, base64_text};

verus! {

/// One piece of a tool's answer.
#[derive(Debug)]
pub enum ToolContent {
    /// Text the model reads.
    Text(String),
    /// An image, base64-encoded, with its MIME type.
    Image { data: String, mime_type: String },
}

/// A tool's answer.
#[derive(Debug)]
pub struct ToolOutput {
    pub content: Vec<ToolContent>,
    /// The answer reports a failure (MCP's `isError`), in-band, so that the
    /// model can read and react to it.
    pub is_error: bool,
}

/// What a piece of an answer shows.
pub ghost enum ContentView {
    Text(Seq<char>),
    Image(Seq<char>, Seq<char>),
}

/// What `c` shows.
pub open spec fn content_view(c: ToolContent) -> ContentView {
    match c {
        ToolContent::Text(t) => ContentView::Text(t@),
        ToolContent::Image { data, mime_type } => ContentView::Image(data@, mime_type@),
    }
}

/// What a list of contents shows.
pub open spec fn contents_view(v: Seq<ToolContent>) -> Seq<ContentView> {
    v.map_values(|c: ToolContent| content_view(c))
}

/// The content is the text `t`.
pub open spec fn is_text(c: ToolContent, t: Seq<char>) -> bool {
    c matches ToolContent::Text(x) && x@ == t
}

/// The content is an image with data `d` and MIME type `m`.
pub open spec fn is_image(c: ToolContent, d: Seq<char>, m: Seq<char>) -> bool {
    c matches ToolContent::Image { data, mime_type } && data@ == d && mime_type@ == m
}

/// `r` is the error answer for `err`: one text, the error's user message.
pub open spec fn reports(r: ToolOutput, err: CliError) -> bool {
    &&& r.is_error
    &&& r.content@.len() == 1
    &&& r.content@[0] matches ToolContent::Text(t) && is_user_message_of(err, t@)
}

/// `r` is the SVG answer for `svg`: the text and the base64 image.
pub open spec fn shows_svg(r: ToolOutput, svg: Seq<char>) -> bool {
    &&& !r.is_error
    &&& r.content@.len() == 2
    &&& is_text(r.content@[0], svg)
    &&& is_image(r.content@[1], base64_text(encode_utf8(svg)), "image/svg+xml"@)
}

/// A successful answer made of one text.
pub fn text_result(text: String) -> (r: ToolOutput)
    ensures
        !r.is_error,
        r.content@.len() == 1,
        is_text(r.content@[0], text@),
{
    ToolOutput { content: vec![ToolContent::Text(text)], is_error: false }
}

/// A failed answer made of one text.
pub fn error_text(text: String) -> (r: ToolOutput)
    ensures
        r.is_error,
        r.content@.len() == 1,
        is_text(r.content@[0], text@),
{
    ToolOutput { content: vec![ToolContent::Text(text)], is_error: true }
}

/// Convert a [`CliError`] into a tool error answer, never a protocol error:
/// tool failures stay in-band so the model can read and react to them.
pub fn error_result(err: &CliError) -> (r: ToolOutput)
    ensures
        reports(r, *err),
{
    error_text(err.user_message())
}

/// An SVG answer: the raw SVG as text (so the model can read and edit it)
/// and the same SVG as an inline image for clients that render it.
pub fn svg_result(svg: &str) -> (r: ToolOutput)
    ensures
        shows_svg(r, svg@),
{
    let encoded = base64_encode(svg.as_bytes());
    ToolOutput {
        content: vec![
            ToolContent::Text(owned(svg)),
            ToolContent::Image { data: encoded, mime_type: owned("image/svg+xml") },
        ],
        is_error: false,
    }
}

} // verus!

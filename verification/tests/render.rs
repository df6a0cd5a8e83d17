use aelm_mcp::error::CliError;
use aelm_mcp::json::Json;
use aelm_mcp::tools::output::ToolContent;
use aelm_mcp::tools::render::{
    png_answer, render_field, render_png_args, render_svg_args, render_symbol_args, svg_answer,
    symbol_answer, theme_arg,
};

fn obj(members: Vec<(&str, Json)>) -> Json {
    Json::Object(members.into_iter().map(|(k, v)| (k.to_string(), v)).collect())
}

fn s(t: &str) -> Json {
    Json::Str(t.to_string())
}

fn envelope(key: &str, value: &str) -> Json {
    obj(vec![(
        "data",
        obj(vec![("render", obj(vec![(key, s(value)), ("format", s("svg"))]))]),
    )])
}

#[test]
fn test_theme_arg_dark() {
    assert_eq!(theme_arg(Some("dark")), "dark");
}

#[test]
fn test_theme_arg_defaults_light() {
    assert_eq!(theme_arg(None), "light");
    assert_eq!(theme_arg(Some("bogus")), "light");
    assert_eq!(theme_arg(Some("light")), "light");
}

#[test]
fn test_render_field_extracts_image() {
    let env = envelope("image_base64", "<svg/>");
    assert_eq!(render_field(&env, "image_base64").map(String::as_str), Some("<svg/>"));
}

#[test]
fn test_render_field_missing_returns_none() {
    let env = obj(vec![("data", obj(vec![("check", obj(vec![]))]))]);
    assert_eq!(render_field(&env, "image_base64"), None);
}

#[test]
fn render_arguments() {
    assert_eq!(
        render_svg_args(Some("dark")),
        vec!["pipeline", "--stdin", "--stages", "render", "--render-format", "svg", "--theme", "dark", "--json"]
    );
    assert_eq!(
        render_png_args(None, None),
        vec![
            "pipeline", "--stdin", "--stages", "render", "--render-format", "png", "--dpi", "150",
            "--theme", "light", "--json"
        ]
    );
    assert_eq!(render_png_args(Some(300), Some("dark"))[7], "300");
    assert_eq!(render_symbol_args("resistor"), vec!["symbols", "render", "resistor"]);
}

#[test]
fn svg_answer_from_envelope_or_error() {
    let r = svg_answer(&Ok(envelope("image_base64", "<svg/>")));
    assert!(!r.is_error);
    assert!(matches!(&r.content[0], ToolContent::Text(t) if t == "<svg/>"));
    let r = svg_answer(&Ok(obj(vec![])));
    assert!(r.is_error);
    assert!(matches!(&r.content[0], ToolContent::Text(t) if t == "render produced no image; see diagnostics"));
    let r = svg_answer(&Err(CliError::JsonParse("x".to_string())));
    assert!(r.is_error);
}

#[test]
fn png_answer_carries_base64() {
    let r = png_answer(&Ok(envelope("image_base64", "iVBORw0")));
    assert!(!r.is_error);
    match &r.content[0] {
        ToolContent::Image { data, mime_type } => {
            assert_eq!(data, "iVBORw0");
            assert_eq!(mime_type, "image/png");
        }
        other => panic!("unexpected {other:?}"),
    }
}

#[test]
fn symbol_answer_decodes_stdout() {
    let r = symbol_answer(b"<svg>sym</svg>");
    assert!(!r.is_error);
    assert!(matches!(&r.content[0], ToolContent::Text(t) if t == "<svg>sym</svg>"));
}

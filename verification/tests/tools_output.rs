use aelm_mcp::error::CliError;
use aelm_mcp::tools::output::{error_text, text_result, ToolContent};
use aelm_mcp::tools::{base64_encode, error_result, svg_result};

#[test]
fn test_base64_known_vectors() {
    assert_eq!(base64_encode(b""), "");
    assert_eq!(base64_encode(b"f"), "Zg==");
    assert_eq!(base64_encode(b"fo"), "Zm8=");
    assert_eq!(base64_encode(b"foo"), "Zm9v");
    assert_eq!(base64_encode(b"foobar"), "Zm9vYmFy");
}

#[test]
fn test_error_result_sets_is_error() {
    let err = CliError::JsonParse("bad".to_string());
    let r = error_result(&err);
    assert!(r.is_error);
}

#[test]
fn test_svg_result_has_text_and_image() {
    let r = svg_result("<svg></svg>");
    assert!(!r.is_error);
    assert_eq!(r.content.len(), 2, "text + image content");
}

#[test]
fn base64_remaining_vectors_and_bytes() {
    assert_eq!(base64_encode(b"foob"), "Zm9vYg==");
    assert_eq!(base64_encode(b"fooba"), "Zm9vYmE=");
    assert_eq!(base64_encode(&[0xff, 0xfe, 0xfd]), "//79");
    assert_eq!(base64_encode(&[0, 0, 0]), "AAAA");
}

#[test]
fn base64_concatenates_by_groups_of_three() {
    let a = b"abc";
    let b = b"defgh";
    let mut ab = a.to_vec();
    ab.extend_from_slice(b);
    assert_eq!(base64_encode(&ab), base64_encode(a) + &base64_encode(b));
    assert_eq!(base64_encode(&ab).len(), 4 * ((ab.len() + 2) / 3));
}

#[test]
fn error_result_carries_the_user_message() {
    let err = CliError::NonZeroExit {
        code: 1,
        stdout: String::new(),
        stderr: "DRC-E001".to_string(),
    };
    let r = error_result(&err);
    assert_eq!(r.content.len(), 1);
    assert!(matches!(&r.content[0], ToolContent::Text(t) if t == "DRC-E001"));
}

#[test]
fn svg_result_exact_contents() {
    let r = svg_result("<svg/>");
    assert!(matches!(&r.content[0], ToolContent::Text(t) if t == "<svg/>"));
    match &r.content[1] {
        ToolContent::Image { data, mime_type } => {
            assert_eq!(data, "PHN2Zy8+");
            assert_eq!(mime_type, "image/svg+xml");
        }
        other => panic!("unexpected {other:?}"),
    }
}

#[test]
fn text_and_error_answers() {
    let t = text_result("hi".to_string());
    assert!(!t.is_error);
    assert!(matches!(&t.content[0], ToolContent::Text(x) if x == "hi"));
    let e = error_text("no".to_string());
    assert!(e.is_error);
    assert!(matches!(&e.content[0], ToolContent::Text(x) if x == "no"));
}

#[test]
fn padding_only_at_the_end() {
    for n in 0..10usize {
        let bytes: Vec<u8> = (0..n as u8).map(|b| b.wrapping_mul(37)).collect();
        let e = base64_encode(&bytes);
        let pad = (3 - n % 3) % 3;
        assert!(e.ends_with(&"=".repeat(pad)));
        assert_eq!(e.matches('=').count(), pad);
    }
}

use aelm_mcp::error::CliError;

#[test]
fn test_user_message_prefers_stderr_for_nonzero_exit() {
    let err = CliError::NonZeroExit {
        code: 1,
        stdout: String::new(),
        stderr: "DRC-E001: unconnected pin".to_string(),
    };
    assert_eq!(err.user_message(), "DRC-E001: unconnected pin");
}

#[test]
fn test_user_message_falls_back_to_display_when_stderr_empty() {
    let err = CliError::NonZeroExit {
        code: 2,
        stdout: String::new(),
        stderr: String::new(),
    };
    assert!(err.user_message().contains("status 2"));
}

#[test]
fn test_json_parse_error_message() {
    let err = CliError::JsonParse("unexpected token".to_string());
    assert!(err.to_string().contains("unexpected token"));
}

#[test]
fn test_io_error_conversion() {
    let io = std::io::Error::new(std::io::ErrorKind::NotFound, "missing");
    let err: CliError = io.into();
    assert!(matches!(err, CliError::Io(_)));
}

#[test]
fn messages_of_each_error() {
    let e = CliError::NonZeroExit {
        code: -7,
        stdout: String::new(),
        stderr: "oops".to_string(),
    };
    assert_eq!(e.to_string(), "aelm exited with status -7: oops");
    let e = CliError::JsonParse("eof".to_string());
    assert_eq!(e.to_string(), "failed to parse aelm JSON output: eof");
    assert_eq!(e.user_message(), "failed to parse aelm JSON output: eof");
    let e = CliError::Io(std::io::Error::new(std::io::ErrorKind::Other, "pipe closed"));
    assert_eq!(e.to_string(), "I/O error communicating with aelm: pipe closed");
    let e = CliError::Spawn {
        path: "/x/aelm".to_string(),
        source: std::io::Error::new(std::io::ErrorKind::NotFound, "not found"),
    };
    assert_eq!(e.to_string(), "failed to run aelm binary at /x/aelm: not found");
    assert_eq!(e.user_message(), "failed to run aelm binary at /x/aelm: not found");
}

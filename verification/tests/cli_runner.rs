use aelm_mcp::cli_runner::{blank, envelope_text, exit_outcome, recover_envelope, AelmCli};
use aelm_mcp::error::CliError;

fn runner() -> AelmCli {
    AelmCli::new(
        "aelm".to_string(),
        vec!["/libs/a".to_string(), "/libs/b".to_string()],
        None,
    )
}

#[test]
fn test_with_library_flags_appends_each_dir() {
    let cli = runner();
    let args = cli.with_library_flags(&["parts", "list", "--json"]);
    assert_eq!(
        args,
        vec!["parts", "list", "--json", "-L", "/libs/a", "-L", "/libs/b"]
    );
}

#[test]
fn test_with_library_flags_no_dirs() {
    let cli = AelmCli::new("aelm".to_string(), vec![], None);
    let args = cli.with_library_flags(&["check", "--json"]);
    assert_eq!(args, vec!["check", "--json"]);
}

#[test]
fn test_binary_path_accessor() {
    let cli = runner();
    assert_eq!(cli.binary_path(), "aelm");
}

#[test]
fn runner_keeps_its_configuration() {
    let cli = AelmCli::new("/opt/aelm".to_string(), vec!["/l".to_string()], Some("/w".to_string()));
    assert_eq!(cli.binary_path(), "/opt/aelm");
    assert_eq!(cli.library_dirs(), &vec!["/l".to_string()]);
    assert_eq!(cli.working_dir(), Some(&"/w".to_string()));
    let none = runner();
    assert_eq!(none.working_dir(), None);
}

#[test]
fn success_hands_back_stdout() {
    let r = exit_outcome(true, Some(0), b"out".to_vec(), b"err".to_vec());
    assert_eq!(r.unwrap(), b"out".to_vec());
}

#[test]
fn failure_becomes_non_zero_exit() {
    let r = exit_outcome(false, Some(3), b"{\"a\":1}".to_vec(), b"bad pin".to_vec());
    match r {
        Err(CliError::NonZeroExit { code, stdout, stderr }) => {
            assert_eq!(code, 3);
            assert_eq!(stdout, "{\"a\":1}");
            assert_eq!(stderr, "bad pin");
        }
        other => panic!("unexpected {other:?}"),
    }
}

#[test]
fn killed_process_reports_minus_one() {
    let r = exit_outcome(false, None, vec![], vec![]);
    assert!(matches!(r, Err(CliError::NonZeroExit { code: -1, .. })));
}

#[test]
fn failure_output_is_decoded_lossily() {
    let r = exit_outcome(false, Some(1), vec![0x61, 0xff, 0x62], b"\xe2\x80\x94 dash".to_vec());
    match r {
        Err(CliError::NonZeroExit { stdout, stderr, .. }) => {
            assert_eq!(stdout, "a\u{fffd}b");
            assert_eq!(stderr, "\u{2014} dash");
        }
        other => panic!("unexpected {other:?}"),
    }
}

#[test]
fn blank_means_only_white_space() {
    assert!(blank(""));
    assert!(blank(" \n\t "));
    assert!(!blank("  x "));
}

#[test]
fn envelope_recovered_from_failed_run() {
    let run = Err(CliError::NonZeroExit {
        code: 1,
        stdout: "{\"success\":false}".to_string(),
        stderr: "DRC".to_string(),
    });
    assert_eq!(recover_envelope(run).unwrap(), b"{\"success\":false}".to_vec());
}

#[test]
fn blank_stdout_keeps_the_error() {
    let run = Err(CliError::NonZeroExit {
        code: 1,
        stdout: "  \n".to_string(),
        stderr: "boom".to_string(),
    });
    match recover_envelope(run) {
        Err(CliError::NonZeroExit { stderr, .. }) => assert_eq!(stderr, "boom"),
        other => panic!("unexpected {other:?}"),
    }
}

#[test]
fn other_errors_pass_through_recovery() {
    let run = Err(CliError::JsonParse("x".to_string()));
    assert!(matches!(recover_envelope(run), Err(CliError::JsonParse(_))));
    assert_eq!(recover_envelope(Ok(b"ok".to_vec())).unwrap(), b"ok".to_vec());
}

#[test]
fn unicode_white_space_counts_as_blank() {
    assert!(blank("\u{3000}\u{85}\u{a0}\u{2009}"));
    assert!(!blank("\u{200b}"));
    assert!(blank("\u{b}\u{c}\r"));
}

#[test]
fn envelope_bytes_decoded_lossily() {
    assert_eq!(envelope_text(b"{}"), "{}");
    assert_eq!(envelope_text(&[0x7b, 0xc0, 0x7d]), "{\u{fffd}}");
}

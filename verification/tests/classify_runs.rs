//! The classification rule on concrete cases and events, one test per
//! outcome variant and per error reason.

use casetest::cases::Case;
use casetest::outcome::{classify, Outcome, RunEvent};

fn case(input: &[u8], expected: &[u8]) -> Case {
    Case { input: input.to_vec(), expected: expected.to_vec() }
}

fn completed(ok: bool, stdout: &[u8], stderr: &[u8]) -> RunEvent {
    RunEvent::Completed {
        exit_success: ok,
        stdout: stdout.to_vec(),
        stderr: stderr.to_vec(),
    }
}

#[test]
fn success_with_matching_output_passes() {
    let o = classify(&case(b"in", b"out"), completed(true, b"  out \n", b""));
    match o {
        Outcome::Pass { input } => assert_eq!(input, b"in".to_vec()),
        _ => panic!("expected a pass"),
    }
}

#[test]
fn success_with_different_output_is_a_mismatch() {
    let o = classify(&case(b"in", b"out"), completed(true, b"other\n", b"noise"));
    match o {
        Outcome::Mismatch { input, expected, got } => {
            assert_eq!(input, b"in".to_vec());
            assert_eq!(expected, b"out".to_vec());
            assert_eq!(got, b"other".to_vec());
        }
        _ => panic!("expected a mismatch"),
    }
}

#[test]
fn non_success_status_is_a_child_error_with_trimmed_stderr() {
    let o = classify(&case(b"in", b"out"), completed(false, b"out\n", b" boom \n"));
    match o {
        Outcome::ChildError { input, stderr } => {
            assert_eq!(input, b"in".to_vec());
            assert_eq!(stderr, b"boom".to_vec());
        }
        _ => panic!("expected a child error"),
    }
}

#[test]
fn invalid_utf8_stdout_is_an_exec_failure() {
    let o = classify(&case(b"in", b"out"), completed(true, &[0xff, 0xfe], b""));
    match o {
        Outcome::ExecFailure { reason } => assert_eq!(reason, b"output not UTF-8".to_vec()),
        _ => panic!("expected an exec failure"),
    }
}

#[test]
fn invalid_utf8_stderr_is_an_exec_failure() {
    let o = classify(&case(b"in", b"out"), completed(false, b"", &[0xc0, 0x20]));
    match o {
        Outcome::ExecFailure { reason } => assert_eq!(reason, b"output not UTF-8".to_vec()),
        _ => panic!("expected an exec failure"),
    }
}

#[test]
fn surrogate_encoding_is_rejected() {
    // 0xED 0xA0 0x80 encodes a UTF-16 surrogate, which UTF-8 forbids.
    let o = classify(&case(b"in", b"out"), completed(true, &[0xed, 0xa0, 0x80], b""));
    match o {
        Outcome::ExecFailure { reason } => assert_eq!(reason, b"output not UTF-8".to_vec()),
        _ => panic!("expected an exec failure"),
    }
}

#[test]
fn valid_utf8_multibyte_output_is_accepted() {
    // "héllo" round-trips: the UTF-8 check must not reject real multi-byte text.
    let o = classify(
        &case(b"in", "h\u{e9}llo".as_bytes()),
        completed(true, "h\u{e9}llo\n".as_bytes(), b""),
    );
    assert!(matches!(o, Outcome::Pass { .. }));
}

#[test]
fn spawn_failure_keeps_its_reason() {
    let o = classify(
        &case(b"in", b"out"),
        RunEvent::SpawnFailed { reason: b"no such file".to_vec() },
    );
    match o {
        Outcome::ExecFailure { reason } => assert_eq!(reason, b"no such file".to_vec()),
        _ => panic!("expected an exec failure"),
    }
}

#[test]
fn missing_stdin_has_its_fixed_reason() {
    let o = classify(&case(b"in", b"out"), RunEvent::StdinUnavailable);
    match o {
        Outcome::ExecFailure { reason } => {
            assert_eq!(reason, b"failed to open stdin".to_vec())
        }
        _ => panic!("expected an exec failure"),
    }
}

#[test]
fn write_failure_keeps_its_reason() {
    let o = classify(
        &case(b"in", b"out"),
        RunEvent::WriteFailed { reason: b"Broken pipe (os error 32)".to_vec() },
    );
    match o {
        Outcome::ExecFailure { reason } => {
            assert_eq!(reason, b"Broken pipe (os error 32)".to_vec())
        }
        _ => panic!("expected an exec failure"),
    }
}

#[test]
fn comparison_is_after_trimming_both_sides() {
    // Expected lines arrive already trimmed by the case stream; stdout is
    // trimmed here, so "42\n" against expected "42" passes.
    let o = classify(&case(b"", b"42"), completed(true, b"42\n", b""));
    assert!(matches!(o, Outcome::Pass { .. }));
    // But interior whitespace is significant.
    let o = classify(&case(b"", b"4 2"), completed(true, b"42\n", b""));
    assert!(matches!(o, Outcome::Mismatch { .. }));
}

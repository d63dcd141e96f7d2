//! Whole-run scenarios: the engine driven over a case file, fed the
//! events a child runner would observe, checked against exact tallies,
//! outcomes and messages.

use casetest::cases::CaseStream;
use casetest::engine::Engine;
use casetest::outcome::{Outcome, RunEvent};
use casetest::report::Reporter;

fn completed(ok: bool, stdout: &[u8], stderr: &[u8]) -> RunEvent {
    RunEvent::Completed {
        exit_success: ok,
        stdout: stdout.to_vec(),
        stderr: stderr.to_vec(),
    }
}

#[test]
fn echo_program_all_pass() {
    let text = b"hello\nhello\nworld\nworld\n";
    let stream = CaseStream::new(text);
    let mut engine = Engine::new(stream, Reporter::new(false));
    assert_eq!(engine.case_count(), 2);

    let input = engine.next_input().expect("first case").clone();
    assert_eq!(input, b"hello".to_vec());
    let (o1, m1) = engine.record(completed(true, b"hello\n", b""));
    assert!(matches!(o1, Outcome::Pass { ref input } if input == &b"hello".to_vec()));
    assert_eq!(m1, "\u{2714}  Run #1 success (input: hello)\n".as_bytes().to_vec());

    let input = engine.next_input().expect("second case").clone();
    assert_eq!(input, b"world".to_vec());
    let (o2, m2) = engine.record(completed(true, b"world\n", b""));
    assert!(matches!(o2, Outcome::Pass { ref input } if input == &b"world".to_vec()));
    assert_eq!(m2, "\u{2714}  Run #2 success (input: world)\n".as_bytes().to_vec());

    assert!(engine.next_input().is_none());
    let (result, _summary) = engine.finish(3);
    assert_eq!(result.passed, 2);
    assert_eq!(result.failed, 0);
    assert_eq!(result.total_time_ms, 3);
}

#[test]
fn sum_two_numbers_mixed() {
    let text = b"1 2\n3\n10 20\n31\n";
    let stream = CaseStream::new(text);
    let mut engine = Engine::new(stream, Reporter::new(false));
    assert_eq!(engine.case_count(), 2);

    let (o1, _m1) = engine.record(completed(true, b"3\n", b""));
    assert!(matches!(o1, Outcome::Pass { .. }));

    let (o2, m2) = engine.record(completed(true, b"30\n", b""));
    match &o2 {
        Outcome::Mismatch { input, expected, got } => {
            assert_eq!(input, &b"10 20".to_vec());
            assert_eq!(expected, &b"31".to_vec());
            assert_eq!(got, &b"30".to_vec());
        }
        other => panic!("expected a mismatch, got {:?}", discriminant_name(other)),
    }
    assert_eq!(
        m2,
        "\u{2717}  Run #2 failed  (input: 10 20)\n\n\tExpected:    31\n\tGot:         30\n\n"
            .as_bytes()
            .to_vec()
    );

    let (result, _summary) = engine.finish(7);
    assert_eq!(result.passed, 1);
    assert_eq!(result.failed, 1);
}

#[test]
fn crashing_program() {
    let text = b"anything\nanything\n";
    let stream = CaseStream::new(text);
    let mut engine = Engine::new(stream, Reporter::new(false));

    let (o, m) = engine.record(completed(false, b"", b"Aborted (core dumped)\n"));
    match &o {
        Outcome::ChildError { input, stderr } => {
            assert_eq!(input, &b"anything".to_vec());
            assert_eq!(stderr, &b"Aborted (core dumped)".to_vec());
            assert!(!stderr.is_empty());
        }
        other => panic!("expected a child error, got {:?}", discriminant_name(other)),
    }
    assert_eq!(
        m,
        "\u{2717}  Run #1 failed  (input: anything)\n\n\tExpected:    anything\n\tGot:         Aborted (core dumped)\n\n"
            .as_bytes()
            .to_vec()
    );

    let (result, _summary) = engine.finish(1);
    assert_eq!(result.passed, 0);
    assert_eq!(result.failed, 1);
}

#[test]
fn missing_binary() {
    let text = b"in\nout\n";
    let stream = CaseStream::new(text);
    let mut engine = Engine::new(stream, Reporter::new(false));

    let reason = b"No such file or directory (os error 2)";
    let (o, m) = engine.record(RunEvent::SpawnFailed { reason: reason.to_vec() });
    match &o {
        Outcome::ExecFailure { reason: r } => assert_eq!(r, &reason.to_vec()),
        other => panic!("expected an exec failure, got {:?}", discriminant_name(other)),
    }
    assert_eq!(
        m,
        "\u{2717} Run #1 failed to execute: No such file or directory (os error 2)\n"
            .as_bytes()
            .to_vec()
    );

    let (result, _summary) = engine.finish(0);
    assert_eq!(result.passed, 0);
    assert_eq!(result.failed, 1);
}

#[test]
fn whitespace_tolerance() {
    let text = b"   42   \n 42\n";
    let stream = CaseStream::new(text);
    let mut engine = Engine::new(stream, Reporter::new(false));
    assert_eq!(engine.case_count(), 1);

    let input = engine.next_input().expect("one case").clone();
    assert_eq!(input, b"42".to_vec());
    let (o, _m) = engine.record(completed(true, b"42\n", b""));
    assert!(matches!(o, Outcome::Pass { .. }));

    let (result, _summary) = engine.finish(2);
    assert_eq!(result.passed, 1);
    assert_eq!(result.failed, 0);
}

#[test]
fn empty_case_file() {
    let text = b"";
    let stream = CaseStream::new(text);
    let mut engine = Engine::new(stream, Reporter::new(false));
    assert_eq!(engine.case_count(), 0);
    assert!(engine.next_input().is_none());

    let (result, summary) = engine.finish(0);
    assert_eq!(result.passed, 0);
    assert_eq!(result.failed, 0);
    assert_eq!(result.total_time_ms, 0);
    assert_eq!(
        summary,
        "------Summary------\nTests: \n\t\u{25cb} 0 total\n\t\u{2717} 0 failed\n\t\u{2714} 0 passed\nTime elapsed: 0 ms\n"
            .as_bytes()
            .to_vec()
    );
}

#[test]
fn every_case_counted_once() {
    let text = b"a\na\nb\nb\nc\nc\nd\nd\n";
    let stream = CaseStream::new(text);
    let mut engine = Engine::new(stream, Reporter::new(false));
    assert_eq!(engine.case_count(), 4);

    let (_o, _m) = engine.record(completed(true, b"a", b""));
    let (_o, _m) = engine.record(completed(true, b"x", b""));
    let (_o, _m) = engine.record(RunEvent::StdinUnavailable);
    let (_o, _m) = engine.record(RunEvent::WriteFailed { reason: b"Broken pipe".to_vec() });

    let (result, _summary) = engine.finish(11);
    assert_eq!(result.passed, 1);
    assert_eq!(result.failed, 3);
    assert_eq!(result.passed + result.failed, 4);
}

fn discriminant_name(o: &Outcome) -> &'static str {
    match o {
        Outcome::Pass { .. } => "Pass",
        Outcome::Mismatch { .. } => "Mismatch",
        Outcome::ChildError { .. } => "ChildError",
        Outcome::ExecFailure { .. } => "ExecFailure",
    }
}

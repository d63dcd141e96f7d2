//! Classification of a single child-program run.
//!
//! The child runner in the surrounding binary spawns the compiled program
//! once per case and reports what happened as a [`RunEvent`]. [`classify`]
//! turns that event, together with the case it belongs to, into the
//! four-way [`Outcome`] that the tally and the reporter work with.

use vstd::prelude::*;
use vstd::slice::slice_to_vec;
use vstd::utf8::valid_utf8;

use crate::cases::{Case, CaseV};
use crate::text::{trim, trim_spec};

verus! {

/// What the child runner observed for one case, before classification.
///
/// `Completed` carries the raw, untrimmed standard output and standard
/// error of the child; the other variants are the ways a run can fail
/// before the child produces output.
pub enum RunEvent {
    /// The child could not be spawned.
    SpawnFailed { reason: Vec<u8> },
    /// The child was spawned but its standard input was not available.
    StdinUnavailable,
    /// Writing the input to the child's standard input failed.
    WriteFailed { reason: Vec<u8> },
    /// The child ran to termination.
    Completed { exit_success: bool, stdout: Vec<u8>, stderr: Vec<u8> },
}

/// The mathematical value of a [`RunEvent`].
pub ghost enum EventV {
    SpawnFailed { reason: Seq<u8> },
    StdinUnavailable,
    WriteFailed { reason: Seq<u8> },
    Completed { exit_success: bool, stdout: Seq<u8>, stderr: Seq<u8> },
}

impl View for RunEvent {
    type V = EventV;

    open spec fn view(&self) -> EventV {
        match self {
            RunEvent::SpawnFailed { reason } => EventV::SpawnFailed { reason: reason@ },
            RunEvent::StdinUnavailable => EventV::StdinUnavailable,
            RunEvent::WriteFailed { reason } => EventV::WriteFailed { reason: reason@ },
            RunEvent::Completed { exit_success, stdout, stderr } => EventV::Completed {
                exit_success: *exit_success,
                stdout: stdout@,
                stderr: stderr@,
            },
        }
    }
}

/// The classification of one run.
pub enum Outcome {
    /// The child exited successfully and its trimmed output matched.
    Pass { input: Vec<u8> },
    /// The child exited successfully but its trimmed output differed.
    Mismatch { input: Vec<u8>, expected: Vec<u8>, got: Vec<u8> },
    /// The child exited with a non-success status; `stderr` is trimmed.
    ChildError { input: Vec<u8>, stderr: Vec<u8> },
    /// The run never produced a classifiable output.
    ExecFailure { reason: Vec<u8> },
}

/// The mathematical value of an [`Outcome`].
pub ghost enum OutcomeV {
    Pass { input: Seq<u8> },
    Mismatch { input: Seq<u8>, expected: Seq<u8>, got: Seq<u8> },
    ChildError { input: Seq<u8>, stderr: Seq<u8> },
    ExecFailure { reason: Seq<u8> },
}

impl View for Outcome {
    type V = OutcomeV;

    open spec fn view(&self) -> OutcomeV {
        match self {
            Outcome::Pass { input } => OutcomeV::Pass { input: input@ },
            Outcome::Mismatch { input, expected, got } => OutcomeV::Mismatch {
                input: input@,
                expected: expected@,
                got: got@,
            },
            Outcome::ChildError { input, stderr } => OutcomeV::ChildError {
                input: input@,
                stderr: stderr@,
            },
            Outcome::ExecFailure { reason } => OutcomeV::ExecFailure { reason: reason@ },
        }
    }
}

/// The reason reported when a spawned child offers no standard input:
/// `"failed to open stdin"`.
pub open spec fn msg_no_stdin() -> Seq<u8> {
    seq![102u8, 97u8, 105u8, 108u8, 101u8, 100u8, 32u8, 116u8, 111u8, 32u8, 111u8, 112u8, 101u8, 110u8, 32u8, 115u8, 116u8, 100u8, 105u8, 110u8]
}

/// The reason reported when child output is not valid UTF-8:
/// `"output not UTF-8"`.
pub open spec fn msg_not_utf8() -> Seq<u8> {
    seq![111u8, 117u8, 116u8, 112u8, 117u8, 116u8, 32u8, 110u8, 111u8, 116u8, 32u8, 85u8, 84u8, 70u8, 45u8, 56u8]
}

/// The reason `"failed to open stdin"` as a byte vector.
pub fn no_stdin_reason() -> (r: Vec<u8>)
    ensures
        r@ == msg_no_stdin(),
{
    let a: [u8; 20] = [102u8, 97u8, 105u8, 108u8, 101u8, 100u8, 32u8, 116u8, 111u8, 32u8, 111u8, 112u8, 101u8, 110u8, 32u8, 115u8, 116u8, 100u8, 105u8, 110u8];
    let r = slice_to_vec(a.as_slice());
    proof {
        assert(r@ =~= msg_no_stdin());
    }
    r
}

/// The reason `"output not UTF-8"` as a byte vector.
pub fn not_utf8_reason() -> (r: Vec<u8>)
    ensures
        r@ == msg_not_utf8(),
{
    let a: [u8; 16] = [111u8, 117u8, 116u8, 112u8, 117u8, 116u8, 32u8, 110u8, 111u8, 116u8, 32u8, 85u8, 84u8, 70u8, 45u8, 56u8];
    let r = slice_to_vec(a.as_slice());
    proof {
        assert(r@ =~= msg_not_utf8());
    }
    r
}

/// Relies on `core::str::from_utf8`: it returns `Ok` exactly when the
/// bytes are valid UTF-8, which is `vstd::utf8::valid_utf8`.
#[verifier::external_body]
fn utf8_ok(b: &[u8]) -> (r: bool)
    ensures
        r == valid_utf8(b@),
{
    core::str::from_utf8(b).is_ok()
}

/// The classification rule, one outcome per case and event.
///
/// A completed run with success status passes exactly when its trimmed
/// standard output equals the expected line; with a non-success status it
/// is a child error carrying the trimmed standard error. Output that is
/// not valid UTF-8, like a run that never completed, is an execution
/// failure.
pub open spec fn classify_spec(c: CaseV, e: EventV) -> OutcomeV {
    match e {
        EventV::SpawnFailed { reason } => OutcomeV::ExecFailure { reason },
        EventV::StdinUnavailable => OutcomeV::ExecFailure { reason: msg_no_stdin() },
        EventV::WriteFailed { reason } => OutcomeV::ExecFailure { reason },
        EventV::Completed { exit_success, stdout, stderr } => {
            if exit_success {
                if !valid_utf8(stdout) {
                    OutcomeV::ExecFailure { reason: msg_not_utf8() }
                } else if trim_spec(stdout) == c.expected {
                    OutcomeV::Pass { input: c.input }
                } else {
                    OutcomeV::Mismatch {
                        input: c.input,
                        expected: c.expected,
                        got: trim_spec(stdout),
                    }
                }
            } else {
                if !valid_utf8(stderr) {
                    OutcomeV::ExecFailure { reason: msg_not_utf8() }
                } else {
                    OutcomeV::ChildError { input: c.input, stderr: trim_spec(stderr) }
                }
            }
        },
    }
}

/// True of the one outcome that counts as a passed case.
pub open spec fn is_pass(o: OutcomeV) -> bool {
    o is Pass
}

/// Compares two byte strings.
fn bytes_eq(a: &[u8], b: &[u8]) -> (r: bool)
    ensures
        r == (a@ == b@),
{
    if a.len() != b.len() {
        proof {
            assert(a@.len() != b@.len());
        }
        return false;
    }
    let mut i: usize = 0;
    while i < a.len()
        invariant
            a@.len() == b@.len(),
            i <= a@.len(),
            forall|j: int| 0 <= j < i ==> a@[j] == b@[j],
        decreases a@.len() - i,
    {
        if a[i] != b[i] {
            return false;
        }
        i = i + 1;
    }
    proof {
        assert(a@ =~= b@);
    }
    true
}

/// Classifies one run: applies [`classify_spec`] to the case and the event.
pub fn classify(c: &Case, e: RunEvent) -> (o: Outcome)
    ensures
        o@ == classify_spec(c@, e@),
{
    match e {
        RunEvent::SpawnFailed { reason } => Outcome::ExecFailure { reason },
        RunEvent::StdinUnavailable => Outcome::ExecFailure { reason: no_stdin_reason() },
        RunEvent::WriteFailed { reason } => Outcome::ExecFailure { reason },
        RunEvent::Completed { exit_success, stdout, stderr } => {
            if exit_success {
                if !utf8_ok(stdout.as_slice()) {
                    Outcome::ExecFailure { reason: not_utf8_reason() }
                } else {
                    let got = trim(stdout.as_slice());
                    if bytes_eq(got.as_slice(), c.expected.as_slice()) {
                        Outcome::Pass { input: slice_to_vec(c.input.as_slice()) }
                    } else {
                        Outcome::Mismatch {
                            input: slice_to_vec(c.input.as_slice()),
                            expected: slice_to_vec(c.expected.as_slice()),
                            got,
                        }
                    }
                }
            } else {
                if !utf8_ok(stderr.as_slice()) {
                    Outcome::ExecFailure { reason: not_utf8_reason() }
                } else {
                    Outcome::ChildError {
                        input: slice_to_vec(c.input.as_slice()),
                        stderr: trim(stderr.as_slice()),
                    }
                }
            }
        },
    }
}

/// A completed, successful run with decodable output passes exactly when
/// its trimmed standard output is the expected line; every other event is
/// classified as one of the failure outcomes.
pub proof fn lemma_pass_iff_match(c: CaseV, e: EventV)
    ensures
        is_pass(classify_spec(c, e)) <==> (e matches EventV::Completed {
            exit_success,
            stdout,
            ..
        } && exit_success && valid_utf8(stdout) && trim_spec(stdout) == c.expected),
{
}

} // verus!

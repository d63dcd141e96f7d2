//! The styled reporter: renders one line (or block) of report text per
//! case, and the final summary, as exact byte strings.
//!
//! Styling is optional. With styling on, each styled piece is wrapped in
//! the ANSI escape prefix of its style and the reset sequence; with
//! styling off the text is identical but carries no escape codes. The
//! reporter keeps a ghost log of every message it has emitted, in order,
//! so that a whole run's report is pinned down by the engine's invariant.

use vstd::prelude::*;
use vstd::slice::slice_to_vec;

use crate::text::{dec_of, dec_usize, dec_u32, dec_u128, put};

verus! {

/// The text styles the reporter uses.
#[derive(Clone, Copy)]
pub enum StyleKind {
    Green,
    Red,
    RedBoldUnderline,
    RedBlink,
    WhiteDimmed,
    Blue,
}

/// The ANSI escape prefix that `ansi_term` writes for each style: `ESC [`,
/// the style codes separated by `;` (bold 1, dimmed 2, underline 4,
/// blink 5, then the foreground colour), and `m`.
pub open spec fn style_prefix(k: StyleKind) -> Seq<u8> {
    match k {
        // "\x1B[32m"
        StyleKind::Green => seq![27u8, 91u8, 51u8, 50u8, 109u8],
        // "\x1B[31m"
        StyleKind::Red => seq![27u8, 91u8, 51u8, 49u8, 109u8],
        // "\x1B[1;4;31m"
        StyleKind::RedBoldUnderline => seq![27u8, 91u8, 49u8, 59u8, 52u8, 59u8, 51u8, 49u8, 109u8],
        // "\x1B[5;31m"
        StyleKind::RedBlink => seq![27u8, 91u8, 53u8, 59u8, 51u8, 49u8, 109u8],
        // "\x1B[2;37m"
        StyleKind::WhiteDimmed => seq![27u8, 91u8, 50u8, 59u8, 51u8, 55u8, 109u8],
        // "\x1B[34m"
        StyleKind::Blue => seq![27u8, 91u8, 51u8, 52u8, 109u8],
    }
}

/// The ANSI reset sequence `"\x1B[0m"`.
pub open spec fn style_reset() -> Seq<u8> {
    seq![27u8, 91u8, 48u8, 109u8]
}

/// `s` as it appears in a report: wrapped in escape codes when styling is
/// on, unchanged when it is off.
pub open spec fn painted(st: bool, k: StyleKind, s: Seq<u8>) -> Seq<u8> {
    if st {
        style_prefix(k) + s + style_reset()
    } else {
        s
    }
}

/// Relies on `ansi_term`: `Style::paint` followed by
/// `ANSIGenericString::<[u8]>::write_to` emits the style's ANSI escape
/// prefix, the bytes unchanged, and the reset sequence `"\x1B[0m"`.
#[verifier::external_body]
fn paint_raw(k: StyleKind, b: &[u8]) -> (r: Vec<u8>)
    ensures
        r@ == style_prefix(k) + b@ + style_reset(),
{
    let style = match k {
        StyleKind::Green => ansi_term::Colour::Green.normal(),
        StyleKind::Red => ansi_term::Colour::Red.normal(),
        StyleKind::RedBoldUnderline => ansi_term::Colour::Red.bold().underline(),
        StyleKind::RedBlink => ansi_term::Colour::Red.blink(),
        StyleKind::WhiteDimmed => ansi_term::Colour::White.dimmed(),
        StyleKind::Blue => ansi_term::Colour::Blue.normal(),
    };
    let mut out: Vec<u8> = Vec::new();
    style.paint(b).write_to(&mut out).unwrap();
    out
}

/// Appends `s`, painted with `k` when `st` is on, to `out`.
fn put_painted(out: &mut Vec<u8>, st: bool, k: StyleKind, s: &[u8])
    ensures
        final(out)@ == old(out)@ + painted(st, k, s@),
{
    if st {
        let p = paint_raw(k, s);
        put(out, p.as_slice());
    } else {
        put(out, s);
    }
}

/// `"✔ "`
pub open spec fn lit_check() -> Seq<u8> {
    seq![226u8, 156u8, 148u8, 32u8]
}

/// `"✗ "`
pub open spec fn lit_cross_sp() -> Seq<u8> {
    seq![226u8, 156u8, 151u8, 32u8]
}

/// `"✗"`
pub open spec fn lit_cross() -> Seq<u8> {
    seq![226u8, 156u8, 151u8]
}

/// `" Run #"`
pub open spec fn lit_run_no() -> Seq<u8> {
    seq![32u8, 82u8, 117u8, 110u8, 32u8, 35u8]
}

/// `"success"`
pub open spec fn lit_success() -> Seq<u8> {
    seq![115u8, 117u8, 99u8, 99u8, 101u8, 115u8, 115u8]
}

/// `"failed"`
pub open spec fn lit_failed() -> Seq<u8> {
    seq![102u8, 97u8, 105u8, 108u8, 101u8, 100u8]
}

/// `"failed to execute"`
pub open spec fn lit_failed_exec() -> Seq<u8> {
    seq![102u8, 97u8, 105u8, 108u8, 101u8, 100u8, 32u8, 116u8, 111u8, 32u8, 101u8, 120u8, 101u8, 99u8, 117u8, 116u8, 101u8]
}

/// `"(input: "`
pub open spec fn lit_input_open() -> Seq<u8> {
    seq![40u8, 105u8, 110u8, 112u8, 117u8, 116u8, 58u8, 32u8]
}

/// `" (input: "`
pub open spec fn lit_input_open_sp() -> Seq<u8> {
    seq![32u8, 40u8, 105u8, 110u8, 112u8, 117u8, 116u8, 58u8, 32u8]
}

/// `"Expected"`
pub open spec fn lit_expected() -> Seq<u8> {
    seq![69u8, 120u8, 112u8, 101u8, 99u8, 116u8, 101u8, 100u8]
}

/// `"Got"`
pub open spec fn lit_got() -> Seq<u8> {
    seq![71u8, 111u8, 116u8]
}

/// `":    "`
pub open spec fn lit_colon4() -> Seq<u8> {
    seq![58u8, 32u8, 32u8, 32u8, 32u8]
}

/// `":         "`
pub open spec fn lit_colon9() -> Seq<u8> {
    seq![58u8, 32u8, 32u8, 32u8, 32u8, 32u8, 32u8, 32u8, 32u8, 32u8]
}

/// `"------Summary------"`
pub open spec fn lit_banner() -> Seq<u8> {
    seq![45u8, 45u8, 45u8, 45u8, 45u8, 45u8, 83u8, 117u8, 109u8, 109u8, 97u8, 114u8, 121u8, 45u8, 45u8, 45u8, 45u8, 45u8, 45u8]
}

/// `"Tests: \n\t○ "`
pub open spec fn lit_tests_hdr() -> Seq<u8> {
    seq![84u8, 101u8, 115u8, 116u8, 115u8, 58u8, 32u8, 10u8, 9u8, 226u8, 151u8, 139u8, 32u8]
}

/// `" total\n\t"`
pub open spec fn lit_total_nl_tab() -> Seq<u8> {
    seq![32u8, 116u8, 111u8, 116u8, 97u8, 108u8, 10u8, 9u8]
}

/// `" failed"`
pub open spec fn lit_failed_sp() -> Seq<u8> {
    seq![32u8, 102u8, 97u8, 105u8, 108u8, 101u8, 100u8]
}

/// `" passed"`
pub open spec fn lit_passed_sp() -> Seq<u8> {
    seq![32u8, 112u8, 97u8, 115u8, 115u8, 101u8, 100u8]
}

/// `"Time elapsed: "`
pub open spec fn lit_elapsed() -> Seq<u8> {
    seq![84u8, 105u8, 109u8, 101u8, 32u8, 101u8, 108u8, 97u8, 112u8, 115u8, 101u8, 100u8, 58u8, 32u8]
}

/// `" ms"`
pub open spec fn lit_ms() -> Seq<u8> {
    seq![32u8, 109u8, 115u8]
}

/// The success line for run `i`:
/// `✔  Run #i success (input: ...)` and a newline, with the glyph,
/// `success`, and the parenthetical styled green, green and dimmed.
pub open spec fn render_pass(i: nat, input: Seq<u8>, st: bool) -> Seq<u8> {
    painted(st, StyleKind::Green, lit_check()) + lit_run_no() + dec_of(i) + seq![32u8]
        + painted(st, StyleKind::Green, lit_success()) + seq![32u8]
        + painted(st, StyleKind::WhiteDimmed, lit_input_open() + input + seq![41u8])
        + seq![10u8]
}

/// The failure block for run `i`: a `✗  Run #i failed (input: ...)` line,
/// a blank line, then `Expected:` and `Got:` rows, and a closing blank
/// line.
pub open spec fn render_fail(i: nat, input: Seq<u8>, expected: Seq<u8>, got: Seq<u8>, st: bool) -> Seq<u8> {
    painted(st, StyleKind::Red, lit_cross_sp()) + lit_run_no() + dec_of(i) + seq![32u8]
        + painted(st, StyleKind::RedBoldUnderline, lit_failed()) + seq![32u8]
        + painted(st, StyleKind::WhiteDimmed, lit_input_open_sp() + input + seq![41u8])
        + seq![10u8] + seq![10u8] + seq![9u8]
        + painted(st, StyleKind::WhiteDimmed, lit_expected()) + lit_colon4() + expected
        + seq![10u8] + seq![9u8]
        + painted(st, StyleKind::WhiteDimmed, lit_got()) + lit_colon9() + got
        + seq![10u8] + seq![10u8]
}

/// The line for a run that could not be driven to completion:
/// `✗ Run #i failed to execute: reason` and a newline.
pub open spec fn render_exec_fail(i: nat, reason: Seq<u8>, st: bool) -> Seq<u8> {
    painted(st, StyleKind::Red, lit_cross()) + lit_run_no() + dec_of(i) + seq![32u8]
        + painted(st, StyleKind::RedBoldUnderline, lit_failed_exec()) + seq![58u8, 32u8]
        + painted(st, StyleKind::WhiteDimmed, reason) + seq![10u8]
}

/// The summary: a banner line, the total/failed/passed counts, and the
/// elapsed milliseconds.
pub open spec fn render_summary(passed: nat, failed: nat, elapsed_ms: nat, st: bool) -> Seq<u8> {
    painted(st, StyleKind::Blue, lit_banner()) + seq![10u8]
        + lit_tests_hdr() + dec_of(passed + failed) + lit_total_nl_tab()
        + painted(st, StyleKind::RedBlink, lit_cross_sp() + dec_of(failed) + lit_failed_sp())
        + seq![10u8, 9u8]
        + painted(st, StyleKind::Green, lit_check() + dec_of(passed) + lit_passed_sp())
        + seq![10u8]
        + lit_elapsed() + dec_of(elapsed_ms) + lit_ms() + seq![10u8]
}

fn render_pass_bytes(st: bool, i: usize, input: &[u8]) -> (r: Vec<u8>)
    ensures
        r@ == render_pass(i as nat, input@, st),
{
    let mut m: Vec<u8> = Vec::new();
    // "✔ "
    put_painted(&mut m, st, StyleKind::Green, [226u8, 156u8, 148u8, 32u8].as_slice());
    // " Run #"
    put(&mut m, [32u8, 82u8, 117u8, 110u8, 32u8, 35u8].as_slice());
    let d = dec_usize(i);
    put(&mut m, d.as_slice());
    put(&mut m, [32u8].as_slice());
    // "success"
    put_painted(&mut m, st, StyleKind::Green, [115u8, 117u8, 99u8, 99u8, 101u8, 115u8, 115u8].as_slice());
    put(&mut m, [32u8].as_slice());
    // "(input: " ... ")"
    let mut par: Vec<u8> = Vec::new();
    put(&mut par, [40u8, 105u8, 110u8, 112u8, 117u8, 116u8, 58u8, 32u8].as_slice());
    put(&mut par, input);
    put(&mut par, [41u8].as_slice());
    put_painted(&mut m, st, StyleKind::WhiteDimmed, par.as_slice());
    put(&mut m, [10u8].as_slice());
    proof {
        assert(m@ =~= render_pass(i as nat, input@, st));
    }
    m
}

fn render_fail_bytes(st: bool, i: usize, input: &[u8], expected: &[u8], got: &[u8]) -> (r: Vec<u8>)
    ensures
        r@ == render_fail(i as nat, input@, expected@, got@, st),
{
    let mut m: Vec<u8> = Vec::new();
    // "✗ "
    put_painted(&mut m, st, StyleKind::Red, [226u8, 156u8, 151u8, 32u8].as_slice());
    // " Run #"
    put(&mut m, [32u8, 82u8, 117u8, 110u8, 32u8, 35u8].as_slice());
    let d = dec_usize(i);
    put(&mut m, d.as_slice());
    put(&mut m, [32u8].as_slice());
    // "failed"
    put_painted(&mut m, st, StyleKind::RedBoldUnderline, [102u8, 97u8, 105u8, 108u8, 101u8, 100u8].as_slice());
    put(&mut m, [32u8].as_slice());
    // " (input: " ... ")"
    let mut par: Vec<u8> = Vec::new();
    put(&mut par, [32u8, 40u8, 105u8, 110u8, 112u8, 117u8, 116u8, 58u8, 32u8].as_slice());
    put(&mut par, input);
    put(&mut par, [41u8].as_slice());
    put_painted(&mut m, st, StyleKind::WhiteDimmed, par.as_slice());
    // "\n\n\t"
    put(&mut m, [10u8, 10u8, 9u8].as_slice());
    // "Expected"
    put_painted(&mut m, st, StyleKind::WhiteDimmed, [69u8, 120u8, 112u8, 101u8, 99u8, 116u8, 101u8, 100u8].as_slice());
    // ":    "
    put(&mut m, [58u8, 32u8, 32u8, 32u8, 32u8].as_slice());
    put(&mut m, expected);
    // "\n\t"
    put(&mut m, [10u8, 9u8].as_slice());
    // "Got"
    put_painted(&mut m, st, StyleKind::WhiteDimmed, [71u8, 111u8, 116u8].as_slice());
    // ":         "
    put(&mut m, [58u8, 32u8, 32u8, 32u8, 32u8, 32u8, 32u8, 32u8, 32u8, 32u8].as_slice());
    put(&mut m, got);
    put(&mut m, [10u8, 10u8].as_slice());
    proof {
        assert(m@ =~= render_fail(i as nat, input@, expected@, got@, st));
    }
    m
}

fn render_exec_fail_bytes(st: bool, i: usize, reason: &[u8]) -> (r: Vec<u8>)
    ensures
        r@ == render_exec_fail(i as nat, reason@, st),
{
    let mut m: Vec<u8> = Vec::new();
    // "✗"
    put_painted(&mut m, st, StyleKind::Red, [226u8, 156u8, 151u8].as_slice());
    // " Run #"
    put(&mut m, [32u8, 82u8, 117u8, 110u8, 32u8, 35u8].as_slice());
    let d = dec_usize(i);
    put(&mut m, d.as_slice());
    put(&mut m, [32u8].as_slice());
    // "failed to execute"
    put_painted(&mut m, st, StyleKind::RedBoldUnderline, [102u8, 97u8, 105u8, 108u8, 101u8, 100u8, 32u8, 116u8, 111u8, 32u8, 101u8, 120u8, 101u8, 99u8, 117u8, 116u8, 101u8].as_slice());
    // ": "
    put(&mut m, [58u8, 32u8].as_slice());
    put_painted(&mut m, st, StyleKind::WhiteDimmed, reason);
    put(&mut m, [10u8].as_slice());
    proof {
        assert(m@ =~= render_exec_fail(i as nat, reason@, st));
    }
    m
}

fn render_summary_bytes(st: bool, passed: u32, failed: u32, elapsed_ms: u128) -> (r: Vec<u8>)
    requires
        passed + failed <= u32::MAX,
    ensures
        r@ == render_summary(passed as nat, failed as nat, elapsed_ms as nat, st),
{
    let mut m: Vec<u8> = Vec::new();
    // "------Summary------"
    put_painted(&mut m, st, StyleKind::Blue, [45u8, 45u8, 45u8, 45u8, 45u8, 45u8, 83u8, 117u8, 109u8, 109u8, 97u8, 114u8, 121u8, 45u8, 45u8, 45u8, 45u8, 45u8, 45u8].as_slice());
    put(&mut m, [10u8].as_slice());
    // "Tests: \n\t○ "
    put(&mut m, [84u8, 101u8, 115u8, 116u8, 115u8, 58u8, 32u8, 10u8, 9u8, 226u8, 151u8, 139u8, 32u8].as_slice());
    let d = dec_u32(passed + failed);
    put(&mut m, d.as_slice());
    // " total\n\t"
    put(&mut m, [32u8, 116u8, 111u8, 116u8, 97u8, 108u8, 10u8, 9u8].as_slice());
    // "✗ " ... " failed"
    let mut fpart: Vec<u8> = Vec::new();
    put(&mut fpart, [226u8, 156u8, 151u8, 32u8].as_slice());
    let d = dec_u32(failed);
    put(&mut fpart, d.as_slice());
    put(&mut fpart, [32u8, 102u8, 97u8, 105u8, 108u8, 101u8, 100u8].as_slice());
    put_painted(&mut m, st, StyleKind::RedBlink, fpart.as_slice());
    put(&mut m, [10u8, 9u8].as_slice());
    // "✔ " ... " passed"
    let mut ppart: Vec<u8> = Vec::new();
    put(&mut ppart, [226u8, 156u8, 148u8, 32u8].as_slice());
    let d = dec_u32(passed);
    put(&mut ppart, d.as_slice());
    put(&mut ppart, [32u8, 112u8, 97u8, 115u8, 115u8, 101u8, 100u8].as_slice());
    put_painted(&mut m, st, StyleKind::Green, ppart.as_slice());
    put(&mut m, [10u8].as_slice());
    // "Time elapsed: "
    put(&mut m, [84u8, 105u8, 109u8, 101u8, 32u8, 101u8, 108u8, 97u8, 112u8, 115u8, 101u8, 100u8, 58u8, 32u8].as_slice());
    let d = dec_u128(elapsed_ms);
    put(&mut m, d.as_slice());
    // " ms"
    put(&mut m, [32u8, 109u8, 115u8, 10u8].as_slice());
    proof {
        assert(m@ =~= render_summary(passed as nat, failed as nat, elapsed_ms as nat, st));
    }
    m
}

/// The styled-output sink. It renders messages as byte strings for the
/// caller to write out, and keeps a ghost log of everything emitted.
pub struct Reporter {
    styled: bool,
    emitted: Ghost<Seq<Seq<u8>>>,
}

impl Reporter {
    /// Whether this reporter wraps styled pieces in ANSI escape codes.
    pub closed spec fn styled(&self) -> bool {
        self.styled
    }

    /// Every message emitted so far, in order.
    pub closed spec fn log(&self) -> Seq<Seq<u8>> {
        self.emitted@
    }

    /// A reporter with an empty log. Styling is on when `styled` is set.
    pub fn new(styled: bool) -> (r: Self)
        ensures
            r.styled() == styled,
            r.log() == Seq::<Seq<u8>>::empty(),
    {
        Reporter { styled, emitted: Ghost(Seq::empty()) }
    }

    /// Emits the success line for run `run_no`.
    pub fn on_pass(&mut self, run_no: usize, input: &[u8]) -> (msg: Vec<u8>)
        ensures
            msg@ == render_pass(run_no as nat, input@, old(self).styled()),
            final(self).styled() == old(self).styled(),
            final(self).log() == old(self).log().push(msg@),
    {
        let msg = render_pass_bytes(self.styled, run_no, input);
        proof {
            self.emitted@ = self.emitted@.push(msg@);
        }
        msg
    }

    /// Emits the failure block for a mismatch in run `run_no`.
    pub fn on_mismatch(&mut self, run_no: usize, input: &[u8], expected: &[u8], got: &[u8]) -> (msg: Vec<u8>)
        ensures
            msg@ == render_fail(run_no as nat, input@, expected@, got@, old(self).styled()),
            final(self).styled() == old(self).styled(),
            final(self).log() == old(self).log().push(msg@),
    {
        let msg = render_fail_bytes(self.styled, run_no, input, expected, got);
        proof {
            self.emitted@ = self.emitted@.push(msg@);
        }
        msg
    }

    /// Emits the block for a child that exited with a non-success status
    /// in run `run_no`: the same shape as a mismatch, with the child's
    /// standard error in place of its output.
    pub fn on_child_error(&mut self, run_no: usize, input: &[u8], expected: &[u8], stderr: &[u8]) -> (msg: Vec<u8>)
        ensures
            msg@ == render_fail(run_no as nat, input@, expected@, stderr@, old(self).styled()),
            final(self).styled() == old(self).styled(),
            final(self).log() == old(self).log().push(msg@),
    {
        let msg = render_fail_bytes(self.styled, run_no, input, expected, stderr);
        proof {
            self.emitted@ = self.emitted@.push(msg@);
        }
        msg
    }

    /// Emits the line for a run that could not be executed.
    pub fn on_exec_failure(&mut self, run_no: usize, reason: &[u8]) -> (msg: Vec<u8>)
        ensures
            msg@ == render_exec_fail(run_no as nat, reason@, old(self).styled()),
            final(self).styled() == old(self).styled(),
            final(self).log() == old(self).log().push(msg@),
    {
        let msg = render_exec_fail_bytes(self.styled, run_no, reason);
        proof {
            self.emitted@ = self.emitted@.push(msg@);
        }
        msg
    }

    /// Emits the summary banner and counts.
    pub fn on_summary(&mut self, passed: u32, failed: u32, elapsed_ms: u128) -> (msg: Vec<u8>)
        requires
            passed + failed <= u32::MAX,
        ensures
            msg@ == render_summary(passed as nat, failed as nat, elapsed_ms as nat, old(self).styled()),
            final(self).styled() == old(self).styled(),
            final(self).log() == old(self).log().push(msg@),
    {
        let msg = render_summary_bytes(self.styled, passed, failed, elapsed_ms);
        proof {
            self.emitted@ = self.emitted@.push(msg@);
        }
        msg
    }
}

} // verus!

//! The case-execution engine: drives the case stream one case at a time,
//! classifies each run, forwards it to the reporter, and tallies.
//!
//! The child program itself is run by the surrounding binary, which feeds
//! each observed [`RunEvent`] back through [`Engine::record`]. The engine
//! guarantees that however the runs went, every case is counted exactly
//! once, the reporter sees the runs in index order `1..=N`, and the final
//! tally satisfies `passed + failed == N`.

use vstd::prelude::*;

use crate::cases::{CaseStream, CaseV};
use crate::outcome::{classify, classify_spec, is_pass, EventV, Outcome, OutcomeV, RunEvent};
use crate::report::{render_exec_fail, render_fail, render_pass, render_summary, Reporter};

verus! {

/// The aggregated result of a completed engine run.
pub struct TestResult {
    pub passed: u32,
    pub failed: u32,
    pub total_time_ms: u128,
}

/// How many of the first `evs.len()` cases pass when case `i` is met by
/// event `evs[i]`.
pub open spec fn count_passes(cs: Seq<CaseV>, evs: Seq<EventV>) -> int
    decreases evs.len(),
{
    if evs.len() == 0 {
        0
    } else {
        count_passes(cs, evs.drop_last()) + if is_pass(
            classify_spec(cs[evs.len() - 1], evs.last()),
        ) {
            1int
        } else {
            0int
        }
    }
}

/// The pass count is between zero and the number of runs.
pub proof fn lemma_count_passes_bounds(cs: Seq<CaseV>, evs: Seq<EventV>)
    ensures
        0 <= count_passes(cs, evs) <= evs.len(),
    decreases evs.len(),
{
    if evs.len() > 0 {
        lemma_count_passes_bounds(cs, evs.drop_last());
    }
}

/// The message the reporter emits for outcome `o` of run `i`; a child
/// error is reported in the same shape as a mismatch, with the case's
/// expected line and the child's standard error.
pub open spec fn render_outcome(i: nat, c: CaseV, o: OutcomeV, st: bool) -> Seq<u8> {
    match o {
        OutcomeV::Pass { input } => render_pass(i, input, st),
        OutcomeV::Mismatch { input, expected, got } => render_fail(i, input, expected, got, st),
        OutcomeV::ChildError { input, stderr } => render_fail(i, input, c.expected, stderr, st),
        OutcomeV::ExecFailure { reason } => render_exec_fail(i, reason, st),
    }
}

/// The per-case messages of a run: one per recorded event, in index order
/// `1..=evs.len()`.
pub open spec fn report_lines(cs: Seq<CaseV>, evs: Seq<EventV>, st: bool) -> Seq<Seq<u8>> {
    Seq::new(
        evs.len(),
        |i: int| render_outcome((i + 1) as nat, cs[i], classify_spec(cs[i], evs[i]), st),
    )
}

/// Trimming tolerance, lifted to whole runs: over a case file whose
/// lines carry extra trailing whitespace the engine sees the same cases,
/// so the same events yield the same messages and the same tally.
pub proof fn lemma_run_trailing_ws(t1: Seq<u8>, t2: Seq<u8>, evs: Seq<EventV>, st: bool)
    requires
        crate::cases::lines_of(t2).len() == crate::cases::lines_of(t1).len(),
        forall|i: int| 0 <= i < crate::cases::lines_of(t1).len() ==> crate::cases::ws_padded(
            crate::cases::lines_of(t1)[i],
            crate::cases::lines_of(t2)[i],
        ),
    ensures
        crate::cases::cases_of(t2) == crate::cases::cases_of(t1),
        count_passes(crate::cases::cases_of(t2), evs) == count_passes(
            crate::cases::cases_of(t1),
            evs,
        ),
        report_lines(crate::cases::cases_of(t2), evs, st) == report_lines(
            crate::cases::cases_of(t1),
            evs,
            st,
        ),
{
    crate::cases::lemma_trailing_ws_same_cases(t1, t2);
}

/// Parity, lifted to whole runs: a case file with one extra unpaired
/// line gives the engine the same cases, so the same events yield the
/// same messages and the same tally.
pub proof fn lemma_run_unpaired_line(
    t1: Seq<u8>,
    t2: Seq<u8>,
    extra: Seq<u8>,
    evs: Seq<EventV>,
    st: bool,
)
    requires
        crate::cases::lines_of(t2) == crate::cases::lines_of(t1).push(extra),
        crate::cases::lines_of(t1).len() % 2 == 0,
    ensures
        crate::cases::cases_of(t2) == crate::cases::cases_of(t1),
        count_passes(crate::cases::cases_of(t2), evs) == count_passes(
            crate::cases::cases_of(t1),
            evs,
        ),
        report_lines(crate::cases::cases_of(t2), evs, st) == report_lines(
            crate::cases::cases_of(t1),
            evs,
            st,
        ),
{
    crate::cases::lemma_unpaired_line_same_cases(t1, t2, extra);
}

/// The case-execution engine for one run over one case stream.
pub struct Engine {
    stream: CaseStream,
    reporter: Reporter,
    passed: u32,
    failed: u32,
    events: Ghost<Seq<EventV>>,
}

impl Engine {
    /// The cases of this run, in file order.
    pub closed spec fn cases(&self) -> Seq<CaseV> {
        self.stream.cases()
    }

    /// The events recorded so far, in run order.
    pub closed spec fn events(&self) -> Seq<EventV> {
        self.events@
    }

    /// How many runs have been recorded.
    pub open spec fn runs_done(&self) -> int {
        self.events().len() as int
    }

    /// Whether the reporter writes ANSI escape codes.
    pub closed spec fn styled(&self) -> bool {
        self.reporter.styled()
    }

    /// Every message emitted so far, in order.
    pub closed spec fn log(&self) -> Seq<Seq<u8>> {
        self.reporter.log()
    }

    /// The running pass tally.
    pub closed spec fn passed_so_far(&self) -> int {
        self.passed as int
    }

    /// The running failure tally.
    pub closed spec fn failed_so_far(&self) -> int {
        self.failed as int
    }

    /// The engine invariant: the stream has been consumed exactly as far
    /// as events were recorded, the tallies partition the recorded runs
    /// by [`classify_spec`], and the reporter's log holds exactly the
    /// per-case messages of the recorded runs, in index order.
    pub closed spec fn wf(&self) -> bool {
        &&& self.stream.taken() == self.events@.len()
        &&& self.events@.len() <= self.cases().len()
        &&& self.cases().len() <= u32::MAX
        &&& self.passed as int == count_passes(self.cases(), self.events@)
        &&& self.passed + self.failed == self.events@.len()
        &&& self.reporter.log() == report_lines(self.cases(), self.events@, self.styled())
    }

    /// An engine at the start of a run: nothing recorded, nothing logged.
    pub fn new(stream: CaseStream, reporter: Reporter) -> (e: Self)
        requires
            stream.taken() == 0,
            stream.cases().len() <= u32::MAX,
            reporter.log() == Seq::<Seq<u8>>::empty(),
        ensures
            e.wf(),
            e.cases() == stream.cases(),
            e.styled() == reporter.styled(),
            e.runs_done() == 0,
            e.log() == Seq::<Seq<u8>>::empty(),
    {
        let e = Engine { stream, reporter, passed: 0, failed: 0, events: Ghost(Seq::empty()) };
        proof {
            assert(report_lines(e.cases(), e.events@, e.styled())
                =~= Seq::<Seq<u8>>::empty());
        }
        e
    }

    /// The total number of cases `N`.
    pub fn case_count(&self) -> (n: usize)
        ensures
            n == self.cases().len(),
    {
        self.stream.count()
    }

    /// The input to feed the child for the next case, or `None` when all
    /// cases have been run.
    pub fn next_input(&self) -> (r: Option<&Vec<u8>>)
        requires
            self.wf(),
        ensures
            self.runs_done() < self.cases().len() ==> (r matches Some(v)
                && v@ == self.cases()[self.runs_done()].input),
            self.runs_done() >= self.cases().len() ==> r is None,
    {
        if self.passed_failed_sum() < self.stream.count() {
            Some(&self.stream.peek().input)
        } else {
            None
        }
    }

    /// The number of runs recorded so far, as the tallies' sum.
    fn passed_failed_sum(&self) -> (n: usize)
        requires
            self.wf(),
        ensures
            n == self.runs_done(),
    {
        (self.passed + self.failed) as usize
    }

    /// Records what happened for the next case: classifies the event
    /// against the case, forwards the outcome to the reporter, and
    /// updates the tally. Returns the outcome and the rendered message.
    pub fn record(&mut self, ev: RunEvent) -> (r: (Outcome, Vec<u8>))
        requires
            old(self).wf(),
            old(self).runs_done() < old(self).cases().len(),
        ensures
            final(self).wf(),
            final(self).cases() == old(self).cases(),
            final(self).styled() == old(self).styled(),
            final(self).events() == old(self).events().push(ev@),
            final(self).runs_done() == old(self).runs_done() + 1,
            r.0@ == classify_spec(old(self).cases()[old(self).runs_done()], ev@),
            r.1@ == render_outcome(
                (old(self).runs_done() + 1) as nat,
                old(self).cases()[old(self).runs_done()],
                r.0@,
                old(self).styled(),
            ),
            final(self).log() == old(self).log().push(r.1@),
            final(self).passed_so_far() == old(self).passed_so_far() + if is_pass(r.0@) {
                1int
            } else {
                0int
            },
            final(self).failed_so_far() == old(self).failed_so_far() + if is_pass(r.0@) {
                0int
            } else {
                1int
            },
    {
        proof {
            lemma_count_passes_bounds(self.cases(), self.events@);
        }
        let ghost evv = ev@;
        let run_no = self.passed_failed_sum() + 1;
        let case = match self.stream.next() {
            Some(case) => case,
            None => vstd::pervasive::unreached(),
        };
        let o = classify(&case, ev);
        let msg = match &o {
            Outcome::Pass { input } => self.reporter.on_pass(run_no, input.as_slice()),
            Outcome::Mismatch { input, expected, got } => self.reporter.on_mismatch(
                run_no,
                input.as_slice(),
                expected.as_slice(),
                got.as_slice(),
            ),
            Outcome::ChildError { input, stderr } => self.reporter.on_child_error(
                run_no,
                input.as_slice(),
                case.expected.as_slice(),
                stderr.as_slice(),
            ),
            Outcome::ExecFailure { reason } => self.reporter.on_exec_failure(
                run_no,
                reason.as_slice(),
            ),
        };
        let pass = match &o {
            Outcome::Pass { .. } => true,
            _ => false,
        };
        if pass {
            self.passed = self.passed + 1;
        } else {
            self.failed = self.failed + 1;
        }
        proof {
            self.events@ = self.events@.push(evv);
            assert(self.events@.drop_last() =~= old(self).events@);
            assert(self.reporter.log() =~= report_lines(
                self.cases(),
                self.events@,
                self.styled(),
            ));
        }
        (o, msg)
    }

    /// Ends the run: emits the summary and returns the tally. Requires
    /// every case to have been recorded, and guarantees the tally
    /// partitions them: `passed + failed == N`.
    pub fn finish(&mut self, elapsed_ms: u128) -> (r: (TestResult, Vec<u8>))
        requires
            old(self).wf(),
            old(self).runs_done() == old(self).cases().len(),
        ensures
            r.0.passed as int == count_passes(old(self).cases(), old(self).events()),
            r.0.passed + r.0.failed == old(self).cases().len(),
            r.0.total_time_ms == elapsed_ms,
            r.1@ == render_summary(
                r.0.passed as nat,
                r.0.failed as nat,
                elapsed_ms as nat,
                old(self).styled(),
            ),
            final(self).log() == report_lines(
                old(self).cases(),
                old(self).events(),
                old(self).styled(),
            ).push(r.1@),
            final(self).events() == old(self).events(),
            final(self).cases() == old(self).cases(),
    {
        let msg = self.reporter.on_summary(self.passed, self.failed, elapsed_ms);
        let result = TestResult {
            passed: self.passed,
            failed: self.failed,
            total_time_ms: elapsed_ms,
        };
        (result, msg)
    }

    /// The tallies always partition the recorded runs: however each case
    /// went, it was counted exactly once.
    pub proof fn lemma_tally_partition(&self)
        requires
            self.wf(),
        ensures
            self.passed_so_far() + self.failed_so_far() == self.runs_done(),
            self.passed_so_far() == count_passes(self.cases(), self.events()),
    {
    }

    /// The reporter has received exactly one callback per recorded run,
    /// in index order `1..=N`, and each is the rendering of that run's
    /// classified outcome.
    pub proof fn lemma_report_order(&self)
        requires
            self.wf(),
        ensures
            self.log().len() == self.runs_done(),
            forall|i: int| 0 <= i < self.runs_done() ==> self.log()[i] == render_outcome(
                (i + 1) as nat,
                self.cases()[i],
                classify_spec(self.cases()[i], self.events()[i]),
                self.styled(),
            ),
    {
    }
}

} // verus!

//! The case stream: the finite, forward-only sequence of `(input, expected)`
//! pairs drawn from a case file.
//!
//! A case file is newline-delimited text. Odd lines (1-based) are inputs,
//! even lines are expected outputs; each is trimmed of ASCII whitespace on
//! both ends, and a trailing unpaired line is discarded.

use vstd::prelude::*;

use crate::text::{is_ascii_ws, trim, trim_spec, NL};

verus! {

/// Index of the first line-feed byte in `s`, or `-1` when there is none.
pub open spec fn first_nl(s: Seq<u8>) -> int
    decreases s.len(),
{
    if s.len() == 0 {
        -1
    } else if s[0] == NL {
        0
    } else if first_nl(s.drop_first()) == -1 {
        -1
    } else {
        first_nl(s.drop_first()) + 1
    }
}

/// The lines of `s`, split at line-feed bytes. A final line feed ends the
/// last line rather than opening an empty one, so `"a\n"` has one line and
/// an empty file has none.
pub open spec fn lines_of(s: Seq<u8>) -> Seq<Seq<u8>>
    decreases s.len(),
{
    if s.len() == 0 {
        Seq::empty()
    } else {
        let i = first_nl(s);
        if 0 <= i < s.len() {
            seq![s.subrange(0, i)] + lines_of(s.subrange(i + 1, s.len() as int))
        } else {
            seq![s]
        }
    }
}

/// A single case: what is fed to the child program and what its trimmed
/// output is expected to be.
pub ghost struct CaseV {
    pub input: Seq<u8>,
    pub expected: Seq<u8>,
}

/// The case built from lines `2i` and `2i + 1`, both trimmed.
pub open spec fn case_at(ls: Seq<Seq<u8>>, i: int) -> CaseV {
    CaseV { input: trim_spec(ls[2 * i]), expected: trim_spec(ls[2 * i + 1]) }
}

/// The cases that a sequence of lines yields: consecutive pairs, in order;
/// a trailing unpaired line yields none.
pub open spec fn pairs_of(ls: Seq<Seq<u8>>) -> Seq<CaseV> {
    Seq::new((ls.len() / 2) as nat, |i: int| case_at(ls, i))
}

/// The cases of a whole case file.
pub open spec fn cases_of(text: Seq<u8>) -> Seq<CaseV> {
    pairs_of(lines_of(text))
}

/// `b` is `a` with extra trailing ASCII whitespace.
pub open spec fn ws_padded(a: Seq<u8>, b: Seq<u8>) -> bool {
    &&& a.len() <= b.len()
    &&& b.take(a.len() as int) == a
    &&& forall|j: int| a.len() <= j < b.len() ==> is_ascii_ws(b[j])
}

/// Trimming tolerance: a case file whose lines each carry extra trailing
/// whitespace over the corresponding line of another yields exactly the
/// same cases, so a whole engine run over either produces the same
/// outcomes and the same tally.
pub proof fn lemma_trailing_ws_same_cases(t1: Seq<u8>, t2: Seq<u8>)
    requires
        lines_of(t2).len() == lines_of(t1).len(),
        forall|i: int| 0 <= i < lines_of(t1).len() ==> ws_padded(
            lines_of(t1)[i],
            lines_of(t2)[i],
        ),
    ensures
        cases_of(t2) == cases_of(t1),
{
    let ls1 = lines_of(t1);
    let ls2 = lines_of(t2);
    assert forall|i: int| 0 <= i < ls1.len() implies trim_spec(ls2[i]) == trim_spec(
        ls1[i],
    ) by {
        let a = ls1[i];
        let b = ls2[i];
        let pad = b.skip(a.len() as int);
        assert(b =~= a + pad);
        crate::text::lemma_trim_trailing_ws(a, pad);
    }
    assert(pairs_of(ls2) =~= pairs_of(ls1));
}

/// Parity: a trailing unpaired line contributes nothing. A case file
/// holding the lines of another, evenly many, plus one extra line yields
/// exactly the same cases, so a whole engine run over either produces
/// the same outcomes and the same tally.
pub proof fn lemma_unpaired_line_same_cases(t1: Seq<u8>, t2: Seq<u8>, extra: Seq<u8>)
    requires
        lines_of(t2) == lines_of(t1).push(extra),
        lines_of(t1).len() % 2 == 0,
    ensures
        cases_of(t2) == cases_of(t1),
{
    let ls1 = lines_of(t1);
    let ls2 = lines_of(t2);
    assert(ls2.len() / 2 == ls1.len() / 2);
    assert forall|i: int| 0 <= i < ls1.len() / 2 implies case_at(ls2, i) == case_at(
        ls1,
        i,
    ) by {
        assert(ls2[2 * i] == ls1[2 * i]);
        assert(ls2[2 * i + 1] == ls1[2 * i + 1]);
    }
    assert(pairs_of(ls2) =~= pairs_of(ls1));
}

/// A single case with its strings held as byte vectors.
pub struct Case {
    pub input: Vec<u8>,
    pub expected: Vec<u8>,
}

impl View for Case {
    type V = CaseV;

    open spec fn view(&self) -> CaseV {
        CaseV { input: self.input@, expected: self.expected@ }
    }
}

proof fn lemma_first_nl_spec(s: Seq<u8>)
    ensures
        first_nl(s) == -1 ==> forall|j: int| 0 <= j < s.len() ==> s[j] != NL,
        first_nl(s) != -1 ==> 0 <= first_nl(s) < s.len() && s[first_nl(s)] == NL,
    decreases s.len(),
{
    if s.len() > 0 && s[0] != NL {
        lemma_first_nl_spec(s.drop_first());
        if first_nl(s.drop_first()) == -1 {
            assert forall|j: int| 0 <= j < s.len() implies s[j] != NL by {
                if j > 0 {
                    assert(s.drop_first()[j - 1] == s[j]);
                }
            }
        } else {
            assert(s.drop_first()[first_nl(s.drop_first())] == s[first_nl(s)]);
        }
    }
}

proof fn lemma_first_nl_at(c: Seq<u8>, t: Seq<u8>)
    requires
        forall|j: int| 0 <= j < c.len() ==> c[j] != NL,
    ensures
        first_nl(c + seq![NL] + t) == c.len(),
    decreases c.len(),
{
    let s = c + seq![NL] + t;
    if c.len() == 0 {
        assert(s[0] == NL);
    } else {
        assert(s[0] == c[0]);
        lemma_first_nl_at(c.drop_first(), t);
        assert(s.drop_first() =~= c.drop_first() + seq![NL] + t);
    }
}

/// Splitting at the first line feed: the bytes before it are one line, and
/// the rest splits on its own.
proof fn lemma_lines_step(c: Seq<u8>, t: Seq<u8>)
    requires
        forall|j: int| 0 <= j < c.len() ==> c[j] != NL,
    ensures
        lines_of(c + seq![NL] + t) == seq![c] + lines_of(t),
{
    let s = c + seq![NL] + t;
    lemma_first_nl_at(c, t);
    assert(s.subrange(0, c.len() as int) =~= c);
    assert(s.subrange(c.len() as int + 1, s.len() as int) =~= t);
}

/// A non-empty text without line feeds is a single line.
proof fn lemma_lines_last(c: Seq<u8>)
    requires
        forall|j: int| 0 <= j < c.len() ==> c[j] != NL,
    ensures
        lines_of(c) == if c.len() == 0 { Seq::<Seq<u8>>::empty() } else { seq![c] },
{
    lemma_first_nl_spec(c);
}

/// Splits `text` into its lines.
fn split_lines(text: &[u8]) -> (ls: Vec<Vec<u8>>)
    ensures
        ls@.map_values(|l: Vec<u8>| l@) == lines_of(text@),
{
    let len = text.len();
    let mut done: Vec<Vec<u8>> = Vec::new();
    let mut cur: Vec<u8> = Vec::new();
    let mut pos: usize = 0;
    proof {
        assert(cur@ + text@.subrange(0, len as int) =~= text@);
        assert(done@.map_values(|l: Vec<u8>| l@) =~= Seq::<Seq<u8>>::empty());
    }
    while pos < len
        invariant
            pos <= len,
            len == text@.len(),
            forall|j: int| 0 <= j < cur@.len() ==> cur@[j] != NL,
            lines_of(text@) == done@.map_values(|l: Vec<u8>| l@)
                + lines_of(cur@ + text@.subrange(pos as int, len as int)),
        decreases len - pos,
    {
        let b = text[pos];
        if b == NL {
            proof {
                assert(cur@ + text@.subrange(pos as int, len as int)
                    =~= cur@ + seq![NL] + text@.subrange(pos + 1, len as int));
                lemma_lines_step(cur@, text@.subrange(pos + 1, len as int));
                assert(done@.push(cur).map_values(|l: Vec<u8>| l@)
                    =~= done@.map_values(|l: Vec<u8>| l@).push(cur@));
            }
            done.push(cur);
            cur = Vec::new();
        } else {
            proof {
                assert(cur@ + text@.subrange(pos as int, len as int)
                    =~= cur@.push(b) + text@.subrange(pos + 1, len as int));
            }
            cur.push(b);
        }
        pos = pos + 1;
    }
    proof {
        assert(cur@ + text@.subrange(len as int, len as int) =~= cur@);
        lemma_lines_last(cur@);
    }
    if cur.len() > 0 {
        proof {
            assert(done@.push(cur).map_values(|l: Vec<u8>| l@)
                =~= done@.map_values(|l: Vec<u8>| l@).push(cur@));
        }
        done.push(cur);
    }
    done
}

/// The finite, forward-only stream of cases drawn from one case file.
///
/// The total count is known up front and is not changed by iteration.
pub struct CaseStream {
    cases: Vec<Case>,
    pos: usize,
}

impl CaseStream {
    /// The cases this stream was built from, in file order.
    pub closed spec fn cases(&self) -> Seq<CaseV> {
        self.cases@.map_values(|c: Case| c@)
    }

    /// How many cases have been taken so far.
    pub closed spec fn taken(&self) -> int {
        self.pos as int
    }

    /// Builds the stream from the contents of a case file.
    pub fn new(text: &[u8]) -> (s: Self)
        ensures
            s.cases() == cases_of(text@),
            s.taken() == 0,
    {
        let ls = split_lines(text);
        let ghost lines = ls@.map_values(|l: Vec<u8>| l@);
        let n = ls.len() / 2;
        let mut cases: Vec<Case> = Vec::new();
        let mut i: usize = 0;
        while i < n
            invariant
                n == ls@.len() / 2,
                ls@.len() <= usize::MAX,
                i <= n,
                lines == ls@.map_values(|l: Vec<u8>| l@),
                cases@.map_values(|c: Case| c@) =~= pairs_of(lines).take(i as int),
            decreases n - i,
        {
            let input = trim(ls[2 * i].as_slice());
            let expected = trim(ls[2 * i + 1].as_slice());
            let c = Case { input, expected };
            proof {
                assert(c@ == case_at(lines, i as int));
                assert(cases@.push(c).map_values(|c: Case| c@)
                    =~= cases@.map_values(|c: Case| c@).push(c@));
                assert(pairs_of(lines).take(i as int).push(pairs_of(lines)[i as int])
                    =~= pairs_of(lines).take(i + 1));
            }
            cases.push(c);
            i = i + 1;
        }
        proof {
            assert(pairs_of(lines).take(n as int) =~= pairs_of(lines));
        }
        CaseStream { cases, pos: 0 }
    }

    /// The total number of cases, independent of how many have been taken.
    pub fn count(&self) -> (n: usize)
        ensures
            n == self.cases().len(),
    {
        self.cases.len()
    }

    /// A borrow of the case that `next` would return.
    pub fn peek(&self) -> (c: &Case)
        requires
            self.taken() < self.cases().len(),
        ensures
            c@ == self.cases()[self.taken()],
    {
        &self.cases[self.pos]
    }

    /// Takes the next case, or signals exhaustion.
    pub fn next(&mut self) -> (c: Option<Case>)
        ensures
            final(self).cases() == old(self).cases(),
            old(self).taken() < old(self).cases().len() ==> {
                &&& final(self).taken() == old(self).taken() + 1
                &&& c matches Some(c) && c@ == old(self).cases()[old(self).taken()]
            },
            old(self).taken() >= old(self).cases().len() ==> {
                &&& final(self).taken() == old(self).taken()
                &&& c is None
            },
    {
        if self.pos < self.cases.len() {
            let here = &self.cases[self.pos];
            let input = vstd::slice::slice_to_vec(here.input.as_slice());
            let expected = vstd::slice::slice_to_vec(here.expected.as_slice());
            self.pos = self.pos + 1;
            Some(Case { input, expected })
        } else {
            None
        }
    }
}

} // verus!

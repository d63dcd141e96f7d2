//! The case stream against concrete case files: counting, pairing,
//! trimming, and iteration order.

use casetest::cases::{Case, CaseStream};

fn drain(mut s: CaseStream) -> Vec<(Vec<u8>, Vec<u8>)> {
    let mut out = Vec::new();
    while let Some(Case { input, expected }) = s.next() {
        out.push((input, expected));
    }
    out
}

#[test]
fn pairs_in_file_order() {
    let s = CaseStream::new(b"a\nb\nc\nd\n");
    assert_eq!(s.count(), 2);
    let got = drain(s);
    assert_eq!(
        got,
        vec![(b"a".to_vec(), b"b".to_vec()), (b"c".to_vec(), b"d".to_vec())]
    );
}

#[test]
fn trailing_unpaired_line_is_discarded() {
    let s = CaseStream::new(b"a\nb\nc\n");
    assert_eq!(s.count(), 1);
    assert_eq!(drain(s), vec![(b"a".to_vec(), b"b".to_vec())]);
}

#[test]
fn no_final_newline() {
    let s = CaseStream::new(b"a\nb");
    assert_eq!(s.count(), 1);
    assert_eq!(drain(s), vec![(b"a".to_vec(), b"b".to_vec())]);
}

#[test]
fn final_newline_opens_no_extra_line() {
    // "a\nb\n" has two lines, not three: same cases as "a\nb".
    assert_eq!(drain(CaseStream::new(b"a\nb\n")), drain(CaseStream::new(b"a\nb")));
}

#[test]
fn empty_file_has_no_cases() {
    let s = CaseStream::new(b"");
    assert_eq!(s.count(), 0);
    assert_eq!(drain(s), vec![]);
}

#[test]
fn lines_are_trimmed_of_ascii_whitespace() {
    let s = CaseStream::new(b"  in put \t\n\t expected  \n");
    assert_eq!(drain(s), vec![(b"in put".to_vec(), b"expected".to_vec())]);
}

#[test]
fn carriage_returns_are_trimmed() {
    let s = CaseStream::new(b"a\r\nb\r\n");
    assert_eq!(drain(s), vec![(b"a".to_vec(), b"b".to_vec())]);
}

#[test]
fn blank_lines_are_kept_as_empty_cases() {
    let s = CaseStream::new(b"\n\n");
    assert_eq!(s.count(), 1);
    assert_eq!(drain(s), vec![(b"".to_vec(), b"".to_vec())]);
}

#[test]
fn count_is_stable_under_iteration() {
    let mut s = CaseStream::new(b"a\nb\nc\nd\n");
    assert_eq!(s.count(), 2);
    let first = s.next().expect("first case");
    assert_eq!(first.input, b"a".to_vec());
    assert_eq!(s.count(), 2);
    let second = s.next().expect("second case");
    assert_eq!(second.expected, b"d".to_vec());
    assert_eq!(s.count(), 2);
    assert!(s.next().is_none());
    assert_eq!(s.count(), 2);
}

#[test]
fn unpaired_line_changes_nothing() {
    // 2k lines and 2k + 1 lines sharing the same first 2k lines give the
    // same cases, so whole runs over them give the same tally.
    let even = drain(CaseStream::new(b"a\nb\nc\nd\n"));
    let odd = drain(CaseStream::new(b"a\nb\nc\nd\nleftover\n"));
    assert_eq!(even, odd);
}

#[test]
fn trailing_spaces_on_lines_change_nothing() {
    // The padded file trims to the same cases as the plain one.
    let plain = drain(CaseStream::new(b"1 2\n3\n10 20\n31\n"));
    let padded = drain(CaseStream::new(b"1 2   \n3 \n10 20\t\n31  \n"));
    assert_eq!(plain, padded);
}

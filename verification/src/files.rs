//! File-name handling for one invocation: the source file, the case
//! file, and the compiled artifact named after the source file with its
//! extension stripped.

use vstd::prelude::*;
use vstd::string::StringSliceAdditionalSpecFns;
use vstd::utf8::{decode_utf8, encode_utf8, valid_utf8};

verus! {

/// Index of the last `.` byte in `s`, or `-1` when there is none.
pub open spec fn last_dot(s: Seq<u8>) -> int
    decreases s.len(),
{
    if s.len() == 0 {
        -1
    } else if s.last() == 46u8 {
        s.len() - 1
    } else {
        last_dot(s.drop_last())
    }
}

/// `s` cut off at its last `.` byte: the file name without its extension.
pub open spec fn stripped(s: Seq<u8>) -> Seq<u8>
    recommends
        last_dot(s) >= 0,
{
    s.subrange(0, last_dot(s))
}

proof fn lemma_last_dot_spec(s: Seq<u8>)
    ensures
        last_dot(s) == -1 ==> forall|j: int| 0 <= j < s.len() ==> s[j] != 46u8,
        last_dot(s) >= 0 ==> last_dot(s) < s.len() && s[last_dot(s)] == 46u8
            && forall|j: int| last_dot(s) < j < s.len() ==> s[j] != 46u8,
    decreases s.len(),
{
    if s.len() > 0 && s.last() != 46u8 {
        lemma_last_dot_spec(s.drop_last());
        assert(forall|j: int| 0 <= j < s.len() - 1 ==> s.drop_last()[j] == s[j]);
    }
}

/// The file name `file` without its extension: everything before the last
/// `.`. The name must have a `.`; the compiled artifact of `foo.c` is
/// then `foo`.
pub fn strip(file: &str) -> (r: &str)
    requires
        last_dot(file.spec_bytes()) >= 0,
    ensures
        r.spec_bytes() == stripped(file.spec_bytes()),
        r@ == decode_utf8(stripped(file.spec_bytes())),
{
    let b = file.as_bytes();
    proof {
        lemma_last_dot_spec(file.spec_bytes());
    }
    let mut i: usize = b.len();
    while i > 0
        invariant
            i <= b@.len(),
            b@ == file.spec_bytes(),
            last_dot(file.spec_bytes()) >= 0,
            forall|j: int| i <= j < b@.len() ==> b@[j] != 46u8,
        decreases i,
    {
        if b[i - 1] == 46 {
            proof {
                vstd::utf8::encode_utf8_valid_utf8(file@);
                assert(valid_utf8(file.spec_bytes()));
                vstd::utf8::is_char_boundary_iff_not_is_continuation_byte(
                    file.spec_bytes(),
                    i - 1,
                );
                assert(!vstd::utf8::is_continuation_byte(file.spec_bytes()[i - 1]));
                assert(vstd::utf8::is_char_boundary(file.spec_bytes(), i - 1));
            }
            let (head, _) = file.split_at(i - 1);
            proof {
                lemma_last_dot_spec(file.spec_bytes());
                assert(last_dot(file.spec_bytes()) == i - 1);
                assert(head.spec_bytes() =~= stripped(file.spec_bytes()));
                vstd::utf8::encode_utf8_decode_utf8(head@);
            }
            return head;
        }
        i = i - 1;
    }
    proof {
        assert(false);
    }
    file
}

/// The three file names of one invocation.
pub struct FileNames {
    /// The C source file to compile and test.
    pub c_file: String,
    /// The plain-text case file.
    pub test_file: String,
    /// The compiled artifact: the source file name without its extension.
    pub compiled_file: String,
}

/// Builds the [`FileNames`] for a source file and a case file: the
/// compiled artifact is the source file name with its extension
/// stripped.
pub fn file_names(c_file: String, test_file: String) -> (r: FileNames)
    requires
        last_dot(encode_utf8(c_file@)) >= 0,
    ensures
        r.c_file@ == c_file@,
        r.test_file@ == test_file@,
        r.compiled_file@ == decode_utf8(stripped(encode_utf8(c_file@))),
{
    let compiled_file = strip(c_file.as_str()).to_owned();
    FileNames { c_file, test_file, compiled_file }
}

/// `path` as a local invocation: prefixed with `./` so that the
/// operating system resolves it relative to the current directory
/// rather than searching the executable path.
pub fn local_invocation(path: &[u8]) -> (r: Vec<u8>)
    ensures
        r@ == seq![46u8, 47u8] + path@,
{
    let mut r: Vec<u8> = Vec::new();
    r.push(46);
    r.push(47);
    crate::text::put(&mut r, path);
    proof {
        assert(r@ =~= seq![46u8, 47u8] + path@);
    }
    r
}

} // verus!

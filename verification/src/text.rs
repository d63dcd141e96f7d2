//! Byte-string utilities shared by the case stream and the reporter:
//! ASCII-whitespace trimming, line splitting, and decimal rendering.

use vstd::prelude::*;

verus! {

/// The line-feed byte, which separates the lines of a case file.
pub const NL: u8 = 10;

/// True of the ASCII whitespace bytes: tab, line feed, form feed,
/// carriage return and space.
pub open spec fn is_ascii_ws(b: u8) -> bool {
    b == 9 || b == 10 || b == 12 || b == 13 || b == 32
}

/// `s` without its leading ASCII whitespace.
pub open spec fn trim_front(s: Seq<u8>) -> Seq<u8>
    decreases s.len(),
{
    if s.len() > 0 && is_ascii_ws(s[0]) {
        trim_front(s.drop_first())
    } else {
        s
    }
}

/// `s` without its trailing ASCII whitespace.
pub open spec fn trim_back(s: Seq<u8>) -> Seq<u8>
    decreases s.len(),
{
    if s.len() > 0 && is_ascii_ws(s.last()) {
        trim_back(s.drop_last())
    } else {
        s
    }
}

/// `s` with ASCII whitespace removed from both ends.
pub open spec fn trim_spec(s: Seq<u8>) -> Seq<u8> {
    trim_back(trim_front(s))
}

fn is_ws(b: u8) -> (r: bool)
    ensures
        r == is_ascii_ws(b),
{
    b == 9 || b == 10 || b == 12 || b == 13 || b == 32
}

/// A copy of `s` with ASCII whitespace removed from both ends.
pub fn trim(s: &[u8]) -> (r: Vec<u8>)
    ensures
        r@ == trim_spec(s@),
{
    let len = s.len();
    proof {
        assert(s@.subrange(0, len as int) =~= s@);
    }
    let mut lo: usize = 0;
    while lo < len && is_ws(s[lo])
        invariant
            len == s@.len(),
            lo <= len,
            trim_front(s@) == trim_front(s@.subrange(lo as int, len as int)),
        decreases len - lo,
    {
        proof {
            assert(s@.subrange(lo as int, len as int).drop_first()
                =~= s@.subrange(lo + 1, len as int));
        }
        lo = lo + 1;
    }
    proof {
        assert(trim_front(s@) =~= s@.subrange(lo as int, len as int));
    }
    let mut hi: usize = len;
    while hi > lo && is_ws(s[hi - 1])
        invariant
            len == s@.len(),
            lo <= hi <= len,
            trim_back(s@.subrange(lo as int, len as int))
                == trim_back(s@.subrange(lo as int, hi as int)),
        decreases hi,
    {
        proof {
            assert(s@.subrange(lo as int, hi as int).drop_last()
                =~= s@.subrange(lo as int, hi - 1));
        }
        hi = hi - 1;
    }
    proof {
        assert(trim_back(s@.subrange(lo as int, hi as int))
            =~= s@.subrange(lo as int, hi as int));
    }
    let mut r: Vec<u8> = Vec::new();
    let mut i: usize = lo;
    while i < hi
        invariant
            lo <= i <= hi <= len,
            len == s@.len(),
            r@ == s@.subrange(lo as int, i as int),
        decreases hi - i,
    {
        r.push(s[i]);
        proof {
            assert(s@.subrange(lo as int, i as int).push(s@[i as int])
                =~= s@.subrange(lo as int, i + 1));
        }
        i = i + 1;
    }
    proof {
        assert(r@ == trim_spec(s@));
    }
    r
}

/// Appends `s` to `out`.
pub fn put(out: &mut Vec<u8>, s: &[u8])
    ensures
        final(out)@ == old(out)@ + s@,
{
    proof {
        assert(old(out)@ + s@.take(0) =~= old(out)@);
    }
    let mut i: usize = 0;
    while i < s.len()
        invariant
            i <= s@.len(),
            out@ == old(out)@ + s@.take(i as int),
        decreases s@.len() - i,
    {
        out.push(s[i]);
        proof {
            assert(old(out)@ + s@.take(i + 1)
                =~= (old(out)@ + s@.take(i as int)).push(s@[i as int]));
        }
        i = i + 1;
    }
    proof {
        assert(s@.take(s@.len() as int) =~= s@);
    }
}

proof fn lemma_trim_front_append(s: Seq<u8>, t: Seq<u8>)
    ensures
        trim_front(s + t) == if trim_front(s).len() > 0 {
            trim_front(s) + t
        } else {
            trim_front(t)
        },
    decreases s.len(),
{
    if s.len() == 0 {
        assert(s + t =~= t);
    } else if is_ascii_ws(s[0]) {
        assert((s + t).drop_first() =~= s.drop_first() + t);
        lemma_trim_front_append(s.drop_first(), t);
    } else {
        assert(trim_front(s) == s);
        assert((s + t)[0] == s[0]);
    }
}

proof fn lemma_trim_front_all_ws(s: Seq<u8>)
    requires
        forall|j: int| 0 <= j < s.len() ==> is_ascii_ws(s[j]),
    ensures
        trim_front(s).len() == 0,
    decreases s.len(),
{
    if s.len() > 0 {
        lemma_trim_front_all_ws(s.drop_first());
    }
}

proof fn lemma_trim_back_trailing_ws(s: Seq<u8>, pad: Seq<u8>)
    requires
        forall|j: int| 0 <= j < pad.len() ==> is_ascii_ws(pad[j]),
    ensures
        trim_back(s + pad) == trim_back(s),
    decreases pad.len(),
{
    if pad.len() == 0 {
        assert(s + pad =~= s);
    } else {
        assert((s + pad).last() == pad.last());
        assert((s + pad).drop_last() =~= s + pad.drop_last());
        lemma_trim_back_trailing_ws(s, pad.drop_last());
    }
}

/// Extra trailing whitespace never changes what trimming yields.
pub proof fn lemma_trim_trailing_ws(s: Seq<u8>, pad: Seq<u8>)
    requires
        forall|j: int| 0 <= j < pad.len() ==> is_ascii_ws(pad[j]),
    ensures
        trim_spec(s + pad) == trim_spec(s),
{
    lemma_trim_front_append(s, pad);
    if trim_front(s).len() > 0 {
        lemma_trim_back_trailing_ws(trim_front(s), pad);
    } else {
        lemma_trim_front_all_ws(pad);
        assert(trim_front(pad) =~= Seq::<u8>::empty());
        assert(trim_front(s) =~= Seq::<u8>::empty());
    }
}

/// The decimal digits of `n`, most significant first, as ASCII bytes.
pub open spec fn dec_of(n: nat) -> Seq<u8>
    decreases n,
{
    if n < 10 {
        seq![(48 + n) as u8]
    } else {
        dec_of(n / 10).push((48 + n % 10) as u8)
    }
}

/// Renders `n` in decimal.
pub fn dec_u128(n: u128) -> (r: Vec<u8>)
    ensures
        r@ == dec_of(n as nat),
    decreases n,
{
    if n < 10 {
        let mut r: Vec<u8> = Vec::new();
        r.push(48 + n as u8);
        r
    } else {
        let mut r = dec_u128(n / 10);
        r.push(48 + (n % 10) as u8);
        r
    }
}

/// Renders `n` in decimal.
pub fn dec_usize(n: usize) -> (r: Vec<u8>)
    ensures
        r@ == dec_of(n as nat),
{
    dec_u128(n as u128)
}

/// Renders `n` in decimal.
pub fn dec_u32(n: u32) -> (r: Vec<u8>)
    ensures
        r@ == dec_of(n as nat),
{
    dec_u128(n as u128)
}

} // verus!

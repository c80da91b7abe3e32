//! The platform-support decision: whether a reported OS version string,
//! as raw bytes, is at least the minimum the capture engine needs. The
//! comparison is the byte-wise lexicographic order the surrounding
//! program has always used.

use vstd::prelude::*;

verus! {

/// `a` is lexicographically greater than or equal to `b`, byte by byte,
/// a shorter sequence ranking below every extension of it.
pub open spec fn spec_lex_ge(a: Seq<u8>, b: Seq<u8>) -> bool
    decreases a.len() + b.len(),
{
    if b.len() == 0 {
        true
    } else if a.len() == 0 {
        false
    } else if a[0] > b[0] {
        true
    } else if a[0] < b[0] {
        false
    } else {
        spec_lex_ge(a.subrange(1, a.len() as int), b.subrange(1, b.len() as int))
    }
}

/// The minimum supported OS version, as the byte string the operating
/// system reports it: the bytes of "12.3" and a trailing newline.
pub open spec fn spec_min_version() -> Seq<u8> {
    seq![49u8, 50u8, 46u8, 51u8, 10u8]
}

/// The minimum supported OS version as an owned byte buffer.
pub fn minimum_version_bytes() -> (v: Vec<u8>)
    ensures
        v@ == spec_min_version(),
{
    let mut v: Vec<u8> = Vec::new();
    v.push(49);
    v.push(50);
    v.push(46);
    v.push(51);
    v.push(10);
    proof {
        assert(v@ =~= spec_min_version());
    }
    v
}

/// Compare two version byte strings lexicographically.
pub fn version_ge(a: &Vec<u8>, b: &Vec<u8>) -> (r: bool)
    ensures
        r == spec_lex_ge(a@, b@),
{
    let a_len = a.len();
    let b_len = b.len();
    let mut i: usize = 0;
    proof {
        assert(a@.subrange(0, a_len as int) =~= a@);
        assert(b@.subrange(0, b_len as int) =~= b@);
    }
    while i < a_len && i < b_len
        invariant
            i <= a_len,
            i <= b_len,
            a_len == a@.len(),
            b_len == b@.len(),
            spec_lex_ge(a@.subrange(i as int, a_len as int), b@.subrange(i as int, b_len as int))
                == spec_lex_ge(a@, b@),
        decreases a_len - i,
    {
        let x = a[i];
        let y = b[i];
        proof {
            let ta = a@.subrange(i as int, a_len as int);
            let tb = b@.subrange(i as int, b_len as int);
            assert(ta[0] == a@[i as int]);
            assert(tb[0] == b@[i as int]);
            assert(ta.subrange(1, ta.len() as int) =~= a@.subrange(i + 1, a_len as int));
            assert(tb.subrange(1, tb.len() as int) =~= b@.subrange(i + 1, b_len as int));
        }
        if x > y {
            return true;
        }
        if x < y {
            return false;
        }
        i = i + 1;
    }
    proof {
        assert(i < a_len ==> a@.subrange(i as int, a_len as int).len() > 0);
        assert(i < b_len ==> b@.subrange(i as int, b_len as int).len() > 0);
    }
    i >= b_len
}

/// Decide whether a reported OS version meets the minimum the capture
/// engine needs.
pub fn is_supported_version(os_version: &Vec<u8>) -> (r: bool)
    ensures
        r == spec_lex_ge(os_version@, spec_min_version()),
{
    let min = minimum_version_bytes();
    version_ge(os_version, &min)
}

} // verus!

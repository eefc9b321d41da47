//! Small verified helpers on `&str` used throughout the decoder.

use vstd::prelude::*;

verus! {

/// Relies on std's `String::push`: appends exactly the one character.
#[verifier::external_body]
pub(crate) fn push_char(s: &mut String, c: char)
    ensures
        final(s)@ == old(s)@.push(c),
{
    s.push(c);
}

/// Character-for-character equality of two strings.
pub fn str_eq(a: &str, b: &str) -> (r: bool)
    ensures
        r == (a@ == b@),
{
    let la = a.unicode_len();
    let lb = b.unicode_len();
    if la != lb {
        proof {
            if a@ == b@ {
                assert(a@.len() == b@.len());
            }
        }
        return false;
    }
    let mut i: usize = 0;
    while i < la
        invariant
            0 <= i <= la,
            la == a@.len(),
            la == b@.len(),
            forall|k: int| 0 <= k < i ==> a@[k] == b@[k],
        decreases la - i,
    {
        if a.get_char(i) != b.get_char(i) {
            proof {
                if a@ == b@ {
                    assert(a@[i as int] == b@[i as int]);
                }
            }
            return false;
        }
        i = i + 1;
    }
    proof {
        assert(a@ =~= b@);
    }
    true
}

/// `lit` occurs in `s` at position `i`.
pub fn match_at(s: &str, i: usize, lit: &str) -> (r: bool)
    requires
        i <= s@.len(),
    ensures
        r == (i + lit@.len() <= s@.len() && s@.subrange(i as int, i as int + lit@.len()) == lit@),
{
    let n = s.unicode_len();
    let m = lit.unicode_len();
    if n - i < m {
        return false;
    }
    let mut k: usize = 0;
    while k < m
        invariant
            0 <= k <= m,
            m == lit@.len(),
            n == s@.len(),
            i + m <= n,
            forall|h: int| 0 <= h < k ==> s@[i + h] == lit@[h],
        decreases m - k,
    {
        if s.get_char(i + k) != lit.get_char(k) {
            proof {
                if s@.subrange(i as int, i as int + lit@.len()) == lit@ {
                    assert(s@.subrange(i as int, i as int + lit@.len())[k as int] == lit@[
                        k as int
                    ]);
                }
            }
            return false;
        }
        k = k + 1;
    }
    proof {
        assert(s@.subrange(i as int, i as int + lit@.len()) =~= lit@);
    }
    true
}

} // verus!

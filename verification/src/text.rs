//! Small verified text helpers shared by the configuration parsers and the
//! wire-format builders.

use vstd::prelude::*;
use vstd::string::StrSliceExecFns;

verus! {

/// Character-wise equality of two string slices.
pub fn str_eq(a: &str, b: &str) -> (r: bool)
    ensures
        r == (a@ == b@),
{
    let n = a.unicode_len();
    if n != b.unicode_len() {
        return false;
    }
    let mut i: usize = 0;
    while i < n
        invariant
            n == a@.len(),
            n == b@.len(),
            i <= n,
            forall|j: int| 0 <= j < i ==> a@[j] == b@[j],
        decreases n - i,
    {
        if a.get_char(i) != b.get_char(i) {
            return false;
        }
        i = i + 1;
    }
    proof {
        assert(a@ =~= b@);
    }
    true
}

/// Key normalization used when dispatching configuration keys: a `-` in a key
/// counts the same as a `_`.
pub open spec fn norm_char(c: char) -> char {
    if c == '-' {
        '_'
    } else {
        c
    }
}

/// The normalized form of a configuration key.
pub open spec fn norm_key(s: Seq<char>) -> Seq<char> {
    s.map_values(|c: char| norm_char(c))
}

/// True when the configuration key `k`, after normalization, is the key `lit`.
pub fn key_matches(k: &str, lit: &str) -> (r: bool)
    ensures
        r == (norm_key(k@) == lit@),
{
    let n = k.unicode_len();
    if n != lit.unicode_len() {
        proof {
            assert(norm_key(k@).len() == k@.len());
        }
        return false;
    }
    let mut i: usize = 0;
    while i < n
        invariant
            n == k@.len(),
            n == lit@.len(),
            i <= n,
            forall|j: int| 0 <= j < i ==> norm_char(k@[j]) == lit@[j],
        decreases n - i,
    {
        let c = k.get_char(i);
        let c = if c == '-' {
            '_'
        } else {
            c
        };
        if c != lit.get_char(i) {
            proof {
                assert(norm_key(k@)[i as int] != lit@[i as int]);
            }
            return false;
        }
        i = i + 1;
    }
    proof {
        assert(norm_key(k@) =~= lit@);
    }
    true
}

} // verus!

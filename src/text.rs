//! Character-level helpers on strings.

use vstd::prelude::*;

verus! {

/// Whether `s` begins with `prefix`, compared character by character.
pub fn has_prefix(s: &str, prefix: &str) -> (r: bool)
    ensures
        r == prefix@.is_prefix_of(s@),
{
    let n = s.unicode_len();
    let m = prefix.unicode_len();
    if m > n {
        return false;
    }
    let mut i: usize = 0;
    while i < m
        invariant
            m == prefix@.len(),
            n == s@.len(),
            m <= n,
            i <= m,
            forall|j: int| 0 <= j < i ==> s@[j] == prefix@[j],
        decreases m - i,
    {
        if s.get_char(i) != prefix.get_char(i) {
            assert(!prefix@.is_prefix_of(s@)) by {
                if prefix@.is_prefix_of(s@) {
                    assert(s@.subrange(0, m as int)[i as int] == s@[i as int]);
                }
            }
            return false;
        }
        i += 1;
    }
    assert(prefix@ =~= s@.subrange(0, m as int));
    true
}

} // verus!

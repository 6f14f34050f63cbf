//! Substring search over strings, used to recognise constraint-violation
//! codes inside a storage driver's error code field.

use vstd::prelude::*;
use vstd::string::*;

verus! {

/// The needle `n` occurs in `h` starting at position `i`.
pub open spec fn matches_at(h: Seq<char>, n: Seq<char>, i: int) -> bool {
    &&& 0 <= i
    &&& i + n.len() <= h.len()
    &&& h.subrange(i, i + n.len() as int) == n
}

/// The needle `n` occurs somewhere in `h`.
pub open spec fn text_contains(h: Seq<char>, n: Seq<char>) -> bool {
    exists|i: int| matches_at(h, n, i)
}

/// Does `n` occur in `h` starting at position `i`?
fn matches_at_exec(h: &str, n: &str, i: usize, hl: usize, nl: usize) -> (r: bool)
    requires
        hl == h@.len(),
        nl == n@.len(),
        i + nl <= hl,
    ensures
        r == matches_at(h@, n@, i as int),
{
    let mut j: usize = 0;
    while j < nl
        invariant
            0 <= j <= nl,
            hl == h@.len(),
            nl == n@.len(),
            i + nl <= hl,
            forall|l: int| 0 <= l < j ==> h@[i + l] == n@[l],
        decreases nl - j,
    {
        if h.get_char(i + j) != n.get_char(j) {
            assert(!matches_at(h@, n@, i as int)) by {
                if matches_at(h@, n@, i as int) {
                    assert(h@.subrange(i as int, i + n@.len() as int)[j as int] == n@[j as int]);
                }
            }
            return false;
        }
        j += 1;
    }
    assert(h@.subrange(i as int, i + n@.len() as int) =~= n@);
    true
}

/// Does the needle `n` occur anywhere in the haystack `h`?
pub fn text_contains_exec(h: &str, n: &str) -> (r: bool)
    ensures
        r == text_contains(h@, n@),
{
    let hl: usize = h.unicode_len();
    let nl: usize = n.unicode_len();
    if nl == 0 {
        assert(matches_at(h@, n@, 0)) by {
            assert(h@.subrange(0, 0) =~= n@);
        }
        return true;
    }
    if nl > hl {
        return false;
    }
    let mut i: usize = 0;
    while i <= hl - nl
        invariant
            hl == h@.len(),
            nl == n@.len(),
            1 <= nl <= hl,
            0 <= i <= hl - nl + 1,
            forall|k: int| 0 <= k < i ==> !matches_at(h@, n@, k),
        decreases hl - i,
    {
        if matches_at_exec(h, n, i, hl, nl) {
            return true;
        }
        i += 1;
    }
    assert(forall|k: int| matches_at(h@, n@, k) ==> 0 <= k < i);
    false
}

} // verus!

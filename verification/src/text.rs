use vstd::prelude::*;

verus! {

/// Whether `a` and `b` hold the same characters.
pub fn same_text(a: &str, b: &str) -> (r: bool)
    ensures
        r == (a@ == b@),
{
    let n = a.unicode_len();
    if n != b.unicode_len() {
        return false;
    }
    let mut i: usize = 0;
    while i < n
        invariant
            n == a@.len(),
            n == b@.len(),
            i <= n,
            forall|j: int| 0 <= j < i ==> a@[j] == b@[j],
        decreases n - i,
    {
        if a.get_char(i) != b.get_char(i) {
            return false;
        }
        i = i + 1;
    }
    assert(a@ =~= b@);
    true
}

/// `sub` matches `s` at position `i`, from its character `k` on.
pub open spec fn matches_from(s: Seq<char>, sub: Seq<char>, i: int, k: int) -> bool
    decreases sub.len() - k,
{
    if k < 0 || k >= sub.len() {
        true
    } else {
        s[i + k] == sub[k] && matches_from(s, sub, i, k + 1)
    }
}

/// `sub` occurs in `s` at position `i` or after it.
pub open spec fn occurs_from(s: Seq<char>, sub: Seq<char>, i: int) -> bool
    decreases s.len() + 1 - i,
{
    if i < 0 || i + sub.len() > s.len() {
        false
    } else {
        matches_from(s, sub, i, 0) || occurs_from(s, sub, i + 1)
    }
}

/// `sub` occurs somewhere in `s`.
pub open spec fn contains_text(s: Seq<char>, sub: Seq<char>) -> bool {
    occurs_from(s, sub, 0)
}

} // verus!

use vstd::prelude::*;

verus! {

/// `needle` occurs in `hay` as a contiguous run of characters starting at `start`.
pub open spec fn occurs_at(hay: Seq<char>, needle: Seq<char>, start: int) -> bool {
    0 <= start && start + needle.len() <= hay.len() && hay.subrange(start, start + needle.len())
        == needle
}

/// `needle` occurs somewhere in `hay` (the empty needle occurs everywhere).
pub open spec fn seq_contains(hay: Seq<char>, needle: Seq<char>) -> bool {
    exists|start: int| occurs_at(hay, needle, start)
}

/// Whether `hay` and `needle` agree on the `needle.len()` characters from `start`.
fn matches_at(hay: &str, needle: &str, start: usize) -> (r: bool)
    requires
        start + needle@.len() <= hay@.len(),
        hay@.len() <= usize::MAX,
    ensures
        r == occurs_at(hay@, needle@, start as int),
{
    let n = needle.unicode_len();
    let mut j: usize = 0;
    while j < n
        invariant
            n == needle@.len(),
            start + n <= hay@.len(),
            hay@.len() <= usize::MAX,
            j <= n,
            forall|k: int| 0 <= k < j ==> hay@[start + k] == needle@[k],
        decreases n - j,
    {
        if hay.get_char(start + j) != needle.get_char(j) {
            assert(hay@.subrange(start as int, start + n)[j as int] != needle@[j as int]);
            return false;
        }
        j = j + 1;
    }
    assert(hay@.subrange(start as int, start + n) =~= needle@);
    true
}

/// Substring search over characters: whether `needle` occurs in `hay`.
pub fn contains_text(hay: &str, needle: &str) -> (r: bool)
    ensures
        r == seq_contains(hay@, needle@),
{
    let h = hay.unicode_len();
    let n = needle.unicode_len();
    if n > h {
        assert forall|start: int| !occurs_at(hay@, needle@, start) by {}
        return false;
    }
    if n == 0 {
        assert(hay@.subrange(0, 0) =~= needle@);
        assert(occurs_at(hay@, needle@, 0));
        return true;
    }
    let mut i: usize = 0;
    while i <= h - n
        invariant
            h == hay@.len(),
            n == needle@.len(),
            0 < n <= h,
            i <= h - n + 1,
            forall|start: int| 0 <= start < i ==> !occurs_at(hay@, needle@, start),
        decreases h - n + 1 - i,
    {
        if matches_at(hay, needle, i) {
            return true;
        }
        i = i + 1;
    }
    assert forall|start: int| !occurs_at(hay@, needle@, start) by {
        if 0 <= start < i {
        }
    }
    false
}

/// Whether `a` and `b` hold the same characters.
pub fn same_text(a: &str, b: &str) -> (r: bool)
    ensures
        r == (a@ == b@),
{
    let n = a.unicode_len();
    if n != b.unicode_len() {
        return false;
    }
    let r = matches_at(a, b, 0);
    proof {
        if r {
            assert(a@.subrange(0, n as int) =~= a@);
        } else {
            assert(a@.subrange(0, n as int) =~= a@);
        }
    }
    r
}

} // verus!

//! Locating separator characters in strings: first and last occurrence,
//! with exact characterizations over `Seq<char>`.

use vstd::prelude::*;

verus! {

broadcast use vstd::string::group_string_axioms;

/// Index of the first occurrence of `c` in `s`, or `s.len()` when `c` does
/// not occur.
pub open spec fn spec_first_index(s: Seq<char>, c: char) -> int
    decreases s.len(),
{
    if s.len() == 0 {
        0
    } else if s[0] == c {
        0
    } else {
        1 + spec_first_index(s.drop_first(), c)
    }
}

/// Index of the last occurrence of `c` in `s`, or `-1` when `c` does not
/// occur.
pub open spec fn spec_last_index(s: Seq<char>, c: char) -> int
    decreases s.len(),
{
    if s.len() == 0 {
        -1
    } else if s.last() == c {
        s.len() - 1
    } else {
        spec_last_index(s.drop_last(), c)
    }
}

/// `spec_first_index` is the unique position with no `c` before it and `c`
/// at it (or the length, when `c` is absent).
pub proof fn lemma_first_index_properties(s: Seq<char>, c: char)
    ensures
        0 <= spec_first_index(s, c) <= s.len(),
        forall|i: int| 0 <= i < spec_first_index(s, c) ==> #[trigger] s[i] != c,
        spec_first_index(s, c) < s.len() ==> s[spec_first_index(s, c)] == c,
    decreases s.len(),
{
    if s.len() > 0 && s[0] != c {
        lemma_first_index_properties(s.drop_first(), c);
        assert(forall|i: int|
            0 <= i < spec_first_index(s, c) ==> #[trigger] s[i] == if i == 0 {
                s[0]
            } else {
                s.drop_first()[i - 1]
            });
    }
}

/// A scan that saw no `c` through position `k`, and `c` at `k` if `k` is in
/// range, has found `spec_first_index`.
pub proof fn lemma_first_index_from_scan(s: Seq<char>, c: char, k: int)
    requires
        0 <= k <= s.len(),
        forall|i: int| 0 <= i < k ==> #[trigger] s[i] != c,
        k < s.len() ==> s[k] == c,
    ensures
        spec_first_index(s, c) == k,
    decreases s.len(),
{
    if s.len() == 0 {
    } else if s[0] == c {
        assert(k == 0);
    } else {
        assert(k >= 1);
        let t = s.drop_first();
        assert(forall|i: int| 0 <= i < k - 1 ==> #[trigger] t[i] == s[i + 1]);
        lemma_first_index_from_scan(t, c, k - 1);
    }
}

/// `spec_last_index` is the unique position with `c` at it and no `c` after
/// it (or `-1`, when `c` is absent).
pub proof fn lemma_last_index_properties(s: Seq<char>, c: char)
    ensures
        -1 <= spec_last_index(s, c) < s.len(),
        forall|i: int| spec_last_index(s, c) < i < s.len() ==> #[trigger] s[i] != c,
        spec_last_index(s, c) >= 0 ==> s[spec_last_index(s, c)] == c,
    decreases s.len(),
{
    if s.len() > 0 && s.last() != c {
        lemma_last_index_properties(s.drop_last(), c);
        assert(forall|i: int|
            spec_last_index(s, c) < i < s.len() - 1 ==> #[trigger] s[i] == s.drop_last()[i]);
    }
}

/// A backward scan that saw no `c` strictly after position `k`, and `c` at
/// `k` if `k >= 0`, has found `spec_last_index`.
pub proof fn lemma_last_index_from_scan(s: Seq<char>, c: char, k: int)
    requires
        -1 <= k < s.len(),
        forall|i: int| k < i < s.len() ==> #[trigger] s[i] != c,
        k >= 0 ==> s[k] == c,
    ensures
        spec_last_index(s, c) == k,
    decreases s.len(),
{
    if s.len() == 0 {
    } else if s.last() == c {
        assert(k == s.len() - 1);
    } else {
        assert(k < s.len() - 1);
        let t = s.drop_last();
        assert(forall|i: int| k < i < t.len() ==> #[trigger] t[i] == s[i]);
        lemma_last_index_from_scan(t, c, k);
    }
}

/// Position of the first occurrence of `c` in `s`; `s.len()` when absent.
pub fn find_first(s: &str, c: char) -> (r: usize)
    ensures
        r == spec_first_index(s@, c),
{
    let len = s.unicode_len();
    let mut i: usize = 0;
    while i < len
        invariant
            0 <= i <= len,
            len == s@.len(),
            forall|j: int| 0 <= j < i ==> #[trigger] s@[j] != c,
        decreases len - i,
    {
        if s.get_char(i) == c {
            proof {
                lemma_first_index_from_scan(s@, c, i as int);
            }
            return i;
        }
        i += 1;
    }
    proof {
        lemma_first_index_from_scan(s@, c, len as int);
    }
    len
}

/// Position of the last occurrence of `c` in `s`; `None` when absent.
pub fn find_last(s: &str, c: char) -> (r: Option<usize>)
    ensures
        r matches Some(i) ==> i == spec_last_index(s@, c),
        r is None <==> spec_last_index(s@, c) == -1,
{
    let len = s.unicode_len();
    let mut i: usize = len;
    while i > 0
        invariant
            0 <= i <= len,
            len == s@.len(),
            forall|j: int| i <= j < len ==> #[trigger] s@[j] != c,
        decreases i,
    {
        i -= 1;
        if s.get_char(i) == c {
            proof {
                lemma_last_index_from_scan(s@, c, i as int);
            }
            return Some(i);
        }
    }
    proof {
        lemma_last_index_from_scan(s@, c, -1);
    }
    None
}

} // verus!

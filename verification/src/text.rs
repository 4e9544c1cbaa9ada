//! Character-level helpers on strings: scanning for a separator and
//! equality, with specifications over the character sequences.

use vstd::prelude::*;

verus! {

/// Index of the first occurrence of `c` in `s` at or after `from`;
/// `s.len()` when there is none.
pub open spec fn first_at(s: Seq<char>, from: int, c: char) -> int
    decreases s.len() - from,
{
    if from < 0 {
        first_at(s, 0, c)
    } else if from >= s.len() {
        s.len() as int
    } else if s[from] == c {
        from
    } else {
        first_at(s, from + 1, c)
    }
}

pub proof fn lemma_first_at_bounds(s: Seq<char>, from: int, c: char)
    requires
        0 <= from <= s.len(),
    ensures
        from <= first_at(s, from, c) <= s.len(),
        first_at(s, from, c) < s.len() ==> s[first_at(s, from, c)] == c,
        forall|i: int| from <= i < first_at(s, from, c) ==> s[i] != c,
    decreases s.len() - from,
{
    if from < s.len() && s[from] != c {
        lemma_first_at_bounds(s, from + 1, c);
    }
}

/// Scanning a region that does not contain `c` does not move the result.
pub proof fn lemma_first_at_extend(s: Seq<char>, from: int, mid: int, c: char)
    requires
        0 <= from <= mid <= s.len(),
        forall|i: int| from <= i < mid ==> s[i] != c,
    ensures
        first_at(s, from, c) == first_at(s, mid, c),
    decreases mid - from,
{
    if from < mid {
        lemma_first_at_extend(s, from + 1, mid, c);
    }
}

/// A position known to hold `c`, with none before it, is the first.
pub proof fn lemma_first_at_hit(s: Seq<char>, from: int, i: int, c: char)
    requires
        0 <= from <= i < s.len(),
        s[i] == c,
        forall|j: int| from <= j < i ==> s[j] != c,
    ensures
        first_at(s, from, c) == i,
{
    lemma_first_at_extend(s, from, i, c);
}

/// When `c` does not occur at or after `from`, the scan reports the length.
pub proof fn lemma_first_at_miss(s: Seq<char>, from: int, c: char)
    requires
        0 <= from <= s.len(),
        forall|j: int| from <= j < s.len() ==> s[j] != c,
    ensures
        first_at(s, from, c) == s.len(),
{
    lemma_first_at_extend(s, from, s.len() as int, c);
}

/// First occurrence of `c` in `s` at or after `from`, as an index;
/// the length of `s` when `c` does not occur there.
pub fn find_char_from(s: &str, from: usize, c: char) -> (r: usize)
    requires
        from <= s@.len(),
    ensures
        r == first_at(s@, from as int, c),
{
    let n = s.unicode_len();
    let mut i = from;
    while i < n
        invariant
            from <= i <= n,
            n == s@.len(),
            forall|j: int| from <= j < i ==> s@[j] != c,
        decreases n - i,
    {
        let ch = s.get_char(i);
        if ch == c {
            proof {
                lemma_first_at_extend(s@, from as int, i as int, c);
            }
            return i;
        }
        i = i + 1;
    }
    proof {
        lemma_first_at_extend(s@, from as int, n as int, c);
    }
    n
}

/// Index of the last occurrence of `c` in `s`; `-1` when there is none.
pub open spec fn last_at(s: Seq<char>, c: char) -> int
    decreases s.len(),
{
    if s.len() == 0 {
        -1
    } else if s[s.len() - 1] == c {
        s.len() - 1
    } else {
        last_at(s.drop_last(), c)
    }
}

/// A position known to hold `c`, with none after it, is the last.
pub proof fn lemma_last_at_hit(s: Seq<char>, i: int, c: char)
    requires
        0 <= i < s.len(),
        s[i] == c,
        forall|j: int| i < j < s.len() ==> s[j] != c,
    ensures
        last_at(s, c) == i,
    decreases s.len(),
{
    if i < s.len() - 1 {
        lemma_last_at_hit(s.drop_last(), i, c);
    }
}

/// When `c` does not occur in `s`, the backward scan reports `-1`.
pub proof fn lemma_last_at_miss(s: Seq<char>, c: char)
    requires
        forall|j: int| 0 <= j < s.len() ==> s[j] != c,
    ensures
        last_at(s, c) == -1,
    decreases s.len(),
{
    if s.len() > 0 {
        lemma_last_at_miss(s.drop_last(), c);
    }
}

/// Last occurrence of `c` in `s`, when there is one.
pub fn rfind_char(s: &str, c: char) -> (r: Option<usize>)
    ensures
        match r {
            Some(i) => last_at(s@, c) == i && i < s@.len(),
            None => last_at(s@, c) == -1,
        },
{
    let n = s.unicode_len();
    let mut i = n;
    while i > 0
        invariant
            0 <= i <= n,
            n == s@.len(),
            forall|j: int| i <= j < n ==> s@[j] != c,
        decreases i,
    {
        i = i - 1;
        let ch = s.get_char(i);
        if ch == c {
            proof {
                lemma_last_at_hit(s@, i as int, c);
            }
            return Some(i);
        }
    }
    proof {
        lemma_last_at_miss(s@, c);
    }
    None
}

/// String equality at the level of character sequences.
pub fn str_eq(a: &str, b: &str) -> (r: bool)
    ensures
        r == (a@ == b@),
{
    let sa = String::from_str(a);
    let sb = String::from_str(b);
    sa == sb
}

/// Whether some element of `v` has exactly the characters of `s`.
pub fn vec_contains_str(v: &Vec<String>, s: &str) -> (r: bool)
    ensures
        r == v.deep_view().contains(s@),
{
    let n = v.len();
    let mut i: usize = 0;
    while i < n
        invariant
            0 <= i <= n,
            n == v.len(),
            forall|j: int| 0 <= j < i ==> v.deep_view()[j] != s@,
        decreases n - i,
    {
        if str_eq(v[i].as_str(), s) {
            assert(v.deep_view()[i as int] == s@);
            return true;
        }
        i = i + 1;
    }
    false
}

} // verus!

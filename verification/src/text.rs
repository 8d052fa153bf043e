use vstd::prelude::*;

verus! {

/// Index of the first `c` in `s`, or -1 when there is none.
pub open spec fn first_index(s: Seq<char>, c: char) -> int
    decreases s.len(),
{
    if s.len() == 0 {
        -1
    } else {
        let r = first_index(s.drop_last(), c);
        if r >= 0 {
            r
        } else if s.last() == c {
            s.len() - 1
        } else {
            -1
        }
    }
}

/// Index of the last `c` in `s`, or -1 when there is none.
pub open spec fn last_index(s: Seq<char>, c: char) -> int
    decreases s.len(),
{
    if s.len() == 0 {
        -1
    } else if s.last() == c {
        s.len() - 1
    } else {
        last_index(s.drop_last(), c)
    }
}

/// Whether `sub` occurs in `s` starting at `i`.
pub open spec fn occurs_at(s: Seq<char>, sub: Seq<char>, i: int) -> bool {
    0 <= i && i + sub.len() <= s.len() && s.subrange(i, i + sub.len()) == sub
}

/// Whether `sub` occurs somewhere in `s`.
pub open spec fn contains_seq(s: Seq<char>, sub: Seq<char>) -> bool {
    exists|i: int| occurs_at(s, sub, i)
}

/// `first_index` is the position of the first occurrence.
pub proof fn lemma_first_index(s: Seq<char>, c: char, i: int)
    requires
        -1 <= i < s.len(),
        i >= 0 ==> s[i] == c,
        forall|j: int| 0 <= j < s.len() && (i < 0 || j < i) ==> s[j] != c,
    ensures
        first_index(s, c) == i,
    decreases s.len(),
{
    if s.len() > 0 {
        if i == s.len() - 1 {
            lemma_first_index(s.drop_last(), c, -1);
        } else {
            lemma_first_index(s.drop_last(), c, i);
        }
    }
}

/// `last_index` is the position of the last occurrence.
pub proof fn lemma_last_index(s: Seq<char>, c: char, i: int)
    requires
        -1 <= i < s.len(),
        i >= 0 ==> s[i] == c,
        forall|j: int| i < j < s.len() ==> s[j] != c,
    ensures
        last_index(s, c) == i,
    decreases s.len(),
{
    if s.len() > 0 && i < s.len() - 1 {
        lemma_last_index(s.drop_last(), c, i);
    }
}

/// The characters of a string, one by one.
pub fn chars_of(s: &str) -> (v: Vec<char>)
    ensures
        v@ == s@,
{
    let n = s.unicode_len();
    let mut v: Vec<char> = Vec::new();
    let mut i: usize = 0;
    while i < n
        invariant
            n == s@.len(),
            i <= n,
            v@ == s@.subrange(0, i as int),
        decreases n - i,
    {
        v.push(s.get_char(i));
        i = i + 1;
        assert(v@ =~= s@.subrange(0, i as int));
    }
    assert(v@ =~= s@);
    v
}

/// Position of the first `c` in `v[lo..hi]`, relative to `lo`; -1 when there is none.
pub fn find_first(v: &Vec<char>, lo: usize, hi: usize, c: char) -> (r: Option<usize>)
    requires
        lo <= hi <= v.len(),
    ensures
        first_index(v@.subrange(lo as int, hi as int), c) == match r {
            Some(k) => k as int,
            None => -1,
        },
{
    let ghost s = v@.subrange(lo as int, hi as int);
    let mut i = lo;
    while i < hi
        invariant
            lo <= i <= hi <= v.len(),
            s == v@.subrange(lo as int, hi as int),
            forall|j: int| lo <= j < i ==> v@[j] != c,
        decreases hi - i,
    {
        if v[i] == c {
            proof {
                lemma_first_index(s, c, (i - lo) as int);
            }
            return Some(i - lo);
        }
        i = i + 1;
    }
    proof {
        lemma_first_index(s, c, -1);
    }
    None
}

/// Position of the last `c` in `v[lo..hi]`, relative to `lo`; -1 when there is none.
pub fn find_last(v: &Vec<char>, lo: usize, hi: usize, c: char) -> (r: Option<usize>)
    requires
        lo <= hi <= v.len(),
    ensures
        last_index(v@.subrange(lo as int, hi as int), c) == match r {
            Some(k) => k as int,
            None => -1,
        },
{
    let ghost s = v@.subrange(lo as int, hi as int);
    let mut i = hi;
    while i > lo
        invariant
            lo <= i <= hi <= v.len(),
            s == v@.subrange(lo as int, hi as int),
            forall|j: int| i <= j < hi ==> v@[j] != c,
        decreases i - lo,
    {
        if v[i - 1] == c {
            proof {
                lemma_last_index(s, c, (i - 1 - lo) as int);
            }
            return Some(i - 1 - lo);
        }
        i = i - 1;
    }
    proof {
        lemma_last_index(s, c, -1);
    }
    None
}

/// Whether `v[lo..hi]` equals `lit`.
pub fn range_eq_str(v: &Vec<char>, lo: usize, hi: usize, lit: &str) -> (b: bool)
    requires
        lo <= hi <= v.len(),
    ensures
        b == (v@.subrange(lo as int, hi as int) == lit@),
{
    let n = lit.unicode_len();
    if hi - lo != n {
        proof {
            assert(v@.subrange(lo as int, hi as int).len() != lit@.len());
        }
        return false;
    }
    let mut i: usize = 0;
    while i < n
        invariant
            n == lit@.len(),
            hi - lo == n,
            lo <= hi <= v.len(),
            i <= n,
            forall|k: int| 0 <= k < i ==> v@[lo + k] == lit@[k],
        decreases n - i,
    {
        if v[lo + i] != lit.get_char(i) {
            proof {
                assert(v@.subrange(lo as int, hi as int)[i as int] != lit@[i as int]);
            }
            return false;
        }
        i = i + 1;
    }
    proof {
        assert(v@.subrange(lo as int, hi as int) =~= lit@);
    }
    true
}

/// Whether `lit` occurs in `v[lo..hi]`.
pub fn range_contains_str(v: &Vec<char>, lo: usize, hi: usize, lit: &str) -> (b: bool)
    requires
        lo <= hi <= v.len(),
    ensures
        b == contains_seq(v@.subrange(lo as int, hi as int), lit@),
{
    let ghost s = v@.subrange(lo as int, hi as int);
    let n = lit.unicode_len();
    if n > hi - lo {
        proof {
            assert forall|i: int| !occurs_at(s, lit@, i) by {}
        }
        return false;
    }
    if n == 0 {
        proof {
            assert(s.subrange(0, 0) =~= lit@);
            assert(occurs_at(s, lit@, 0));
        }
        return true;
    }
    let mut i = lo;
    while i <= hi - n
        invariant
            n == lit@.len(),
            n >= 1,
            lo <= i,
            i <= hi - n + 1,
            hi <= v.len(),
            n <= hi - lo,
            s == v@.subrange(lo as int, hi as int),
            forall|j: int| 0 <= j < i - lo ==> !occurs_at(s, lit@, j),
        decreases hi - n + 1 - i,
    {
        if range_eq_str(v, i, i + n, lit) {
            proof {
                assert(s.subrange((i - lo) as int, (i - lo + n) as int) =~= v@.subrange(i as int, (i + n) as int));
                assert(occurs_at(s, lit@, (i - lo) as int));
            }
            return true;
        }
        proof {
            assert(s.subrange((i - lo) as int, (i - lo + n) as int) =~= v@.subrange(i as int, (i + n) as int));
        }
        i = i + 1;
    }
    proof {
        assert forall|j: int| !occurs_at(s, lit@, j) by {
            if 0 <= j && j + n <= s.len() {
                assert(j < i - lo);
            }
        }
    }
    false
}


/// No `c` comes before the first one or after the last one; none at all when there is
/// none.
pub proof fn lemma_index_extremes(s: Seq<char>, c: char)
    ensures
        forall|j: int| 0 <= j < s.len() && (first_index(s, c) < 0 || j < first_index(s, c)) ==> s[j] != c,
        forall|j: int| last_index(s, c) < j < s.len() ==> s[j] != c,
    decreases s.len(),
{
    if s.len() > 0 {
        let d = s.drop_last();
        lemma_index_extremes(d, c);
        lemma_index_bounds(s, c);
        lemma_index_bounds(d, c);
        assert(s.last() == s[s.len() - 1]);
        assert forall|j: int| 0 <= j < s.len() && (first_index(s, c) < 0 || j < first_index(s, c)) implies s[j] != c by {
            if j < d.len() {
                assert(s[j] == d[j]);
            }
        }
        assert forall|j: int| last_index(s, c) < j < s.len() implies s[j] != c by {
            if j < d.len() {
                assert(s[j] == d[j]);
            }
        }
    }
}

/// Both indices lie in `-1..len`, and there is a first `c` exactly when there is a last one.
pub proof fn lemma_index_bounds(s: Seq<char>, c: char)
    ensures
        -1 <= first_index(s, c) < s.len(),
        -1 <= last_index(s, c) < s.len(),
        (first_index(s, c) >= 0) == (last_index(s, c) >= 0),
        first_index(s, c) >= 0 ==> s[first_index(s, c)] == c,
        last_index(s, c) >= 0 ==> s[last_index(s, c)] == c,
        first_index(s, c) <= last_index(s, c),
    decreases s.len(),
{
    if s.len() > 0 {
        lemma_index_bounds(s.drop_last(), c);
    }
}

} // verus!

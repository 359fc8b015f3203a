//! Character-level helpers on strings, each proved against its view.
use vstd::prelude::*;

verus! {

/// True when `pat` occurs in `s` starting at offset `i`.
pub open spec fn occurs_at(s: Seq<char>, pat: Seq<char>, i: int) -> bool {
    0 <= i && i + pat.len() <= s.len() && s.subrange(i, i + pat.len()) == pat
}

/// True when `pat` occurs anywhere in `s`.
pub open spec fn contains_seq(s: Seq<char>, pat: Seq<char>) -> bool {
    exists|i: int| occurs_at(s, pat, i)
}

/// True when `s` ends with `suffix`.
pub open spec fn ends_with(s: Seq<char>, suffix: Seq<char>) -> bool {
    suffix.len() <= s.len() && s.subrange(s.len() - suffix.len(), s.len() as int) == suffix
}

/// True when `s` starts with `prefix`.
pub open spec fn starts_with(s: Seq<char>, prefix: Seq<char>) -> bool {
    prefix.len() <= s.len() && s.subrange(0, prefix.len() as int) == prefix
}

/// Equality of two strings, character by character.
pub fn str_eq(a: &str, b: &str) -> (r: bool)
    ensures
        r == (a@ == b@),
{
    let n = a.unicode_len();
    if n != b.unicode_len() {
        return false;
    }
    let mut i: usize = 0;
    while i < n
        invariant
            n == a@.len(),
            n == b@.len(),
            i <= n,
            forall|k: int| 0 <= k < i ==> a@[k] == b@[k],
        decreases n - i,
    {
        if a.get_char(i) != b.get_char(i) {
            return false;
        }
        i = i + 1;
    }
    assert(a@ =~= b@);
    true
}

/// Whether `pat` occurs in `s` at offset `i`.
pub fn matches_at(s: &str, pat: &str, i: usize) -> (r: bool)
    requires
        i + pat@.len() <= s@.len(),
        s@.len() <= usize::MAX,
    ensures
        r == occurs_at(s@, pat@, i as int),
{
    let m = pat.unicode_len();
    let mut k: usize = 0;
    while k < m
        invariant
            m == pat@.len(),
            i + m <= s@.len(),
            s@.len() <= usize::MAX,
            k <= m,
            forall|j: int| 0 <= j < k ==> s@[i + j] == pat@[j],
        decreases m - k,
    {
        if s.get_char(i + k) != pat.get_char(k) {
            assert(s@.subrange(i as int, i + m)[k as int] != pat@[k as int]);
            return false;
        }
        k = k + 1;
    }
    assert(s@.subrange(i as int, i + m) =~= pat@);
    true
}

/// Whether `pat` occurs anywhere in `s`.
pub fn contains_str(s: &str, pat: &str) -> (r: bool)
    ensures
        r == contains_seq(s@, pat@),
{
    let n = s.unicode_len();
    let m = pat.unicode_len();
    if m > n {
        return false;
    }
    if m == 0 {
        assert(s@.subrange(0, 0) =~= pat@);
        assert(occurs_at(s@, pat@, 0));
        return true;
    }
    let mut i: usize = 0;
    while i <= n - m
        invariant
            n == s@.len(),
            m == pat@.len(),
            0 < m <= n,
            i <= n - m + 1,
            forall|j: int| 0 <= j < i ==> !occurs_at(s@, pat@, j),
        decreases n - m + 1 - i,
    {
        if matches_at(s, pat, i) {
            return true;
        }
        i = i + 1;
    }
    assert forall|j: int| !occurs_at(s@, pat@, j) by {
        if 0 <= j && j + m <= n {
            assert(j < i);
        }
    }
    false
}

/// Whether `s` starts with `prefix`.
pub fn starts_with_str(s: &str, prefix: &str) -> (r: bool)
    ensures
        r == starts_with(s@, prefix@),
{
    let n = s.unicode_len();
    let m = prefix.unicode_len();
    if m > n {
        return false;
    }
    matches_at(s, prefix, 0)
}

/// A new string holding `a` followed by `b`.
pub fn concat2(a: &str, b: &str) -> (r: String)
    ensures
        r@ == a@ + b@,
{
    let mut r = String::from_str(a);
    r.append(b);
    r
}

/// A new string holding `a`, `b` and `c` in that order.
pub fn concat3(a: &str, b: &str, c: &str) -> (r: String)
    ensures
        r@ == a@ + b@ + c@,
{
    let mut r = String::from_str(a);
    r.append(b);
    r.append(c);
    r
}

/// The characters of `s` after dropping every leading `c`.
pub open spec fn trim_start_char(s: Seq<char>, c: char) -> Seq<char>
    decreases s.len(),
{
    if s.len() > 0 && s[0] == c {
        trim_start_char(s.subrange(1, s.len() as int), c)
    } else {
        s
    }
}

proof fn lemma_trim_start_step(s: Seq<char>, c: char, k: int)
    requires
        0 <= k < s.len(),
        s[k] == c,
    ensures
        trim_start_char(s.subrange(k, s.len() as int), c) == trim_start_char(
            s.subrange(k + 1, s.len() as int),
            c,
        ),
{
    let t = s.subrange(k, s.len() as int);
    assert(t.subrange(1, t.len() as int) =~= s.subrange(k + 1, s.len() as int));
}

/// `s` without any leading `c`.
pub fn trim_start_matching(s: &str, c: char) -> (r: String)
    ensures
        r@ == trim_start_char(s@, c),
{
    let n = s.unicode_len();
    let mut k: usize = 0;
    assert(s@.subrange(0, n as int) =~= s@);
    while k < n && s.get_char(k) == c
        invariant
            n == s@.len(),
            k <= n,
            trim_start_char(s@.subrange(k as int, n as int), c) == trim_start_char(s@, c),
        decreases n - k,
    {
        proof {
            lemma_trim_start_step(s@, c, k as int);
        }
        k = k + 1;
    }
    let rest = s.substring_char(k, n);
    rest.to_owned()
}

} // verus!

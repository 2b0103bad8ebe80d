//! Small verified string helpers: equality, suffix test, character search.
//! Contracts are stated over the character-sequence views of `str` values.

use vstd::prelude::*;

verus! {

/// Holds when `suf` is a suffix of `s`.
pub open spec fn suffix_of(suf: Seq<char>, s: Seq<char>) -> bool {
    suf.len() <= s.len() && s.subrange(s.len() - suf.len(), s.len() as int) == suf
}

/// Character-wise equality test of two string slices.
pub fn str_eq(a: &str, b: &str) -> (r: bool)
    ensures
        r == (a@ == b@),
{
    let n = a.unicode_len();
    let m = b.unicode_len();
    if n != m {
        return false;
    }
    let mut i: usize = 0;
    while i < n
        invariant
            n == a@.len(),
            n == b@.len(),
            i <= n,
            forall|j: int| 0 <= j < i ==> a@[j] == b@[j],
        decreases n - i,
    {
        if a.get_char(i) != b.get_char(i) {
            return false;
        }
        i += 1;
    }
    proof {
        assert(a@ =~= b@);
    }
    true
}

/// Suffix test: does `s` end with `suffix`?
pub fn str_ends_with(s: &str, suffix: &str) -> (r: bool)
    ensures
        r == suffix_of(suffix@, s@),
{
    let n = s.unicode_len();
    let m = suffix.unicode_len();
    if m > n {
        return false;
    }
    let mut i: usize = 0;
    while i < m
        invariant
            n == s@.len(),
            m == suffix@.len(),
            m <= n,
            i <= m,
            forall|j: int| 0 <= j < i ==> s@[n - m + j] == suffix@[j],
        decreases m - i,
    {
        if s.get_char(n - m + i) != suffix.get_char(i) {
            proof {
                assert(s@.subrange(n - m, n as int)[i as int] == s@[n - m + i]);
            }
            return false;
        }
        i += 1;
    }
    proof {
        assert(s@.subrange(n - m, n as int) =~= suffix@);
    }
    true
}

/// Does `s` end with a `/`?
pub fn ends_with_slash(s: &str) -> (r: bool)
    ensures
        r == (s@.len() > 0 && s@.last() == '/'),
{
    let n = s.unicode_len();
    if n == 0 {
        false
    } else {
        s.get_char(n - 1) == '/'
    }
}

/// Does `s` contain the character `c`?
pub fn str_contains_char(s: &str, c: char) -> (r: bool)
    ensures
        r == s@.contains(c),
{
    let n = s.unicode_len();
    let mut i: usize = 0;
    while i < n
        invariant
            n == s@.len(),
            i <= n,
            forall|j: int| 0 <= j < i ==> s@[j] != c,
        decreases n - i,
    {
        if s.get_char(i) == c {
            assert(s@[i as int] == c);
            return true;
        }
        i += 1;
    }
    false
}

/// The views of a sequence of owned strings.
pub open spec fn string_views(s: Seq<String>) -> Seq<Seq<char>> {
    s.map_values(|x: String| x@)
}

/// Does the list `v` hold a string equal to `s`?
pub fn str_list_contains(v: &Vec<String>, s: &str) -> (r: bool)
    ensures
        r == string_views(v@).contains(s@),
{
    let n = v.len();
    let mut i: usize = 0;
    while i < n
        invariant
            n == v@.len(),
            i <= n,
            forall|j: int| 0 <= j < i ==> v@[j]@ != s@,
        decreases n - i,
    {
        if str_eq(v[i].as_str(), s) {
            proof {
                assert(string_views(v@)[i as int] == s@);
            }
            return true;
        }
        i += 1;
    }
    proof {
        if string_views(v@).contains(s@) {
            let w = choose|w: int| 0 <= w < n && string_views(v@)[w] == s@;
            assert(v@[w]@ == s@);
            assert(false);
        }
    }
    false
}

/// The position just after the last `/` in `s`, or 0 when `s` has none; the
/// prefix of `s` of this length, less the separator, is the lexical parent.
pub open spec fn last_slash_end(s: Seq<char>) -> int
    decreases s.len(),
{
    if s.len() == 0 {
        0
    } else if s.last() == '/' {
        s.len() as int
    } else {
        last_slash_end(s.drop_last())
    }
}

/// Finds the index of the last `/` in `s`, if any.
pub fn rfind_slash(s: &str) -> (r: Option<usize>)
    ensures
        match r {
            Some(i) => i < s@.len() && s@[i as int] == '/' && last_slash_end(s@) == i + 1,
            None => last_slash_end(s@) == 0 && !s@.contains('/'),
        },
{
    let n = s.unicode_len();
    let mut i: usize = n;
    proof {
        assert(s@.take(n as int) =~= s@);
    }
    while i > 0
        invariant
            n == s@.len(),
            i <= n,
            forall|j: int| i <= j < n ==> s@[j] != '/',
            last_slash_end(s@) == last_slash_end(s@.take(i as int)),
        decreases i,
    {
        let c = s.get_char(i - 1);
        proof {
            assert(s@.take(i as int).last() == s@[i - 1]);
            assert(s@.take(i as int).drop_last() =~= s@.take(i - 1));
        }
        if c == '/' {
            return Some(i - 1);
        }
        i -= 1;
    }
    proof {
        assert(s@.take(0) =~= Seq::<char>::empty());
        assert forall|j: int| 0 <= j < n implies s@[j] != '/' by {}
        if s@.contains('/') {
            let w = choose|w: int| 0 <= w < s@.len() && s@[w] == '/';
            assert(false);
        }
    }
    None
}

} // verus!

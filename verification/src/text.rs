//! Verified helpers over `&str`, built on the character-level view
//! (`Seq<char>`) that vstd gives to strings.

use vstd::prelude::*;
use vstd::string::StrSliceExecFns;

verus! {

/// Character-by-character string equality, proved against the views.
pub fn str_eq_chars(a: &str, b: &str) -> (r: bool)
    ensures
        r == (a@ == b@),
{
    let alen: usize = a.unicode_len();
    let blen: usize = b.unicode_len();
    if alen != blen {
        assert(a@.len() != b@.len());
        return false;
    }
    let mut i: usize = 0;
    while i < alen
        invariant
            i <= alen,
            alen == a@.len(),
            alen == b@.len(),
            forall|j: int| 0 <= j < i ==> a@[j] == b@[j],
        decreases alen - i,
    {
        if a.get_char(i) != b.get_char(i) {
            return false;
        }
        i = i + 1;
    }
    proof {
        assert(a@ =~= b@);
    }
    true
}


/// The view sequence of a string vector.
pub open spec fn string_views(s: Seq<String>) -> Seq<Seq<char>> {
    s.map_values(|x: String| x@)
}

/// ASCII-case-insensitive character equality: letters match their other
/// case, everything else only itself.
pub open spec fn chars_eq_nocase(a: char, b: char) -> bool {
    ||| a == b
    ||| (65 <= a as u32 <= 90 && b as u32 == a as u32 + 32)
    ||| (65 <= b as u32 <= 90 && a as u32 == b as u32 + 32)
}

/// ASCII-case-insensitive equality of two character sequences.
pub open spec fn seq_eq_nocase(x: Seq<char>, y: Seq<char>) -> bool {
    x.len() == y.len() && forall|i: int| 0 <= i < x.len() ==> chars_eq_nocase(x[i], y[i])
}

/// One ASCII-case-insensitive character comparison.
fn char_eq_nocase(a: char, b: char) -> (r: bool)
    ensures
        r == chars_eq_nocase(a, b),
{
    let ua: u32 = a as u32;
    let ub: u32 = b as u32;
    a == b || (65 <= ua && ua <= 90 && ub == ua + 32) || (65 <= ub && ub <= 90 && ua == ub + 32)
}

/// ASCII-case-insensitive string equality.
#[verifier::loop_isolation(false)]
pub fn str_eq_nocase(a: &str, b: &str) -> (r: bool)
    ensures
        r == seq_eq_nocase(a@, b@),
{
    let alen: usize = a.unicode_len();
    let blen: usize = b.unicode_len();
    if alen != blen {
        return false;
    }
    let mut i: usize = 0;
    while i < alen
        invariant
            i <= alen,
            forall|j: int| 0 <= j < i ==> chars_eq_nocase(a@[j], b@[j]),
        decreases alen - i,
    {
        if !char_eq_nocase(a.get_char(i), b.get_char(i)) {
            return false;
        }
        i = i + 1;
    }
    true
}

/// Does `s` contain `m`, comparing ASCII-case-insensitively?
pub open spec fn spec_contains_nocase(s: Seq<char>, m: Seq<char>) -> bool {
    exists|i: int| 0 <= i && i + m.len() <= s.len() && seq_eq_nocase(#[trigger] s.subrange(i, i + m.len()), m)
}

/// ASCII-case-insensitive substring test.
#[verifier::loop_isolation(false)]
pub fn contains_nocase(s: &str, m: &str) -> (r: bool)
    ensures
        r == spec_contains_nocase(s@, m@),
{
    let n: usize = s.unicode_len();
    let mlen: usize = m.unicode_len();
    if mlen > n {
        return false;
    }
    if mlen == 0 {
        proof {
            assert(s@.subrange(0, 0) =~= m@);
            assert(seq_eq_nocase(s@.subrange(0, 0 + m@.len() as int), m@));
        }
        return true;
    }
    let mut i: usize = 0;
    while i <= n - mlen
        invariant
            0 <= i <= n - mlen + 1,
            forall|j: int|
                0 <= j < i ==> !seq_eq_nocase(#[trigger] s@.subrange(j, j + m@.len()), m@),
        decreases n + 1 - i,
    {
        let mut k: usize = 0;
        let mut all: bool = true;
        while k < mlen
            invariant
                0 <= k <= mlen,
                i + mlen <= n,
                all ==> forall|l: int| 0 <= l < k ==> chars_eq_nocase(s@[i + l], m@[l]),
                !all ==> !seq_eq_nocase(s@.subrange(i as int, i + m@.len()), m@),
            decreases mlen - k,
        {
            if !char_eq_nocase(s.get_char(i + k), m.get_char(k)) {
                proof {
                    assert(s@.subrange(i as int, i + m@.len())[k as int] == s@[i + k]);
                }
                all = false;
                k = mlen;
            } else {
                k = k + 1;
            }
        }
        if all {
            proof {
                assert forall|l: int| 0 <= l < m@.len() implies chars_eq_nocase(
                    #[trigger] s@.subrange(i as int, i + m@.len())[l],
                    m@[l],
                ) by {
                    assert(s@.subrange(i as int, i + m@.len())[l] == s@[i + l]);
                }
                assert(seq_eq_nocase(s@.subrange(i as int, i + m@.len()), m@));
            }
            return true;
        }
        i = i + 1;
    }
    proof {
        assert forall|j: int| 0 <= j && j + m@.len() <= s@.len() implies !seq_eq_nocase(
            #[trigger] s@.subrange(j, j + m@.len()),
            m@,
        ) by {
            assert(j < i);
        }
    }
    false
}

/// Where `m` first occurs in `s` at or after position `i`.
pub open spec fn spec_find_from(s: Seq<char>, m: Seq<char>, i: int) -> Option<int>
    recommends
        0 <= i <= s.len(),
    decreases s.len() - i, when 0 <= i <= s.len()
{
    if m.len() == 0 {
        Some(i)
    } else if i + m.len() > s.len() {
        None
    } else if s.subrange(i, i + m.len()) == m {
        Some(i)
    } else {
        spec_find_from(s, m, i + 1)
    }
}

/// Where `m` first occurs in `s`.
pub open spec fn spec_find(s: Seq<char>, m: Seq<char>) -> Option<int> {
    spec_find_from(s, m, 0)
}

/// First occurrence of `m` in `s`, by character position.
#[verifier::loop_isolation(false)]
pub fn find_substring(s: &str, m: &str) -> (r: Option<usize>)
    ensures
        match r {
            Some(i) => spec_find(s@, m@) == Some(i as int) && i as int + m@.len() <= s@.len(),
            None => spec_find(s@, m@) is None,
        },
{
    let n: usize = s.unicode_len();
    let mlen: usize = m.unicode_len();
    if mlen > n {
        return None;
    }
    if mlen == 0 {
        return Some(0);
    }
    let mut i: usize = 0;
    while i <= n - mlen
        invariant
            0 <= i <= n - mlen + 1,
            spec_find(s@, m@) == spec_find_from(s@, m@, i as int),
        decreases n + 1 - i,
    {
        let mut k: usize = 0;
        let mut all: bool = true;
        while k < mlen
            invariant
                0 <= k <= mlen,
                i + mlen <= n,
                all ==> forall|l: int| 0 <= l < k ==> s@[i + l] == m@[l],
                !all ==> s@.subrange(i as int, i + m@.len()) != m@,
            decreases mlen - k,
        {
            if s.get_char(i + k) != m.get_char(k) {
                proof {
                    assert(s@.subrange(i as int, i + m@.len())[k as int] == s@[i + k]);
                }
                all = false;
                k = mlen;
            } else {
                k = k + 1;
            }
        }
        if all {
            proof {
                assert(s@.subrange(i as int, i + m@.len()) =~= m@);
                assert(spec_find_from(s@, m@, i as int) == Some(i as int));
            }
            return Some(i);
        }
        proof {
            assert(spec_find_from(s@, m@, i as int) == spec_find_from(s@, m@, i as int + 1));
        }
        i = i + 1;
    }
    None
}

} // verus!

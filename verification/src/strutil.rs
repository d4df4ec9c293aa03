//! Small verified helpers over string slices.

use vstd::prelude::*;
use vstd::string::StrSliceExecFns;

verus! {

/// The sequence `p` is a prefix of `s`.
pub open spec fn starts_with(s: Seq<char>, p: Seq<char>) -> bool {
    p.len() <= s.len() && s.subrange(0, p.len() as int) == p
}

/// Character-for-character equality of two string slices.
pub fn str_eq(a: &str, b: &str) -> (r: bool)
    ensures
        r == (a@ == b@),
{
    let sa = a.to_owned();
    let sb = b.to_owned();
    sa == sb
}

/// The characters after the last colon of `s`, if `s` has a colon.
pub open spec fn after_last_colon(s: Seq<char>) -> Option<Seq<char>>
    decreases s.len(),
{
    if s.len() == 0 {
        None
    } else if s.last() == ':' {
        Some(Seq::empty())
    } else {
        match after_last_colon(s.drop_last()) {
            Some(t) => Some(t.push(s.last())),
            None => None,
        }
    }
}

proof fn lemma_after_last_colon_none(s: Seq<char>)
    requires
        forall|k: int| 0 <= k < s.len() ==> s[k] != ':',
    ensures
        after_last_colon(s) is None,
    decreases s.len(),
{
    if s.len() > 0 {
        lemma_after_last_colon_none(s.drop_last());
    }
}

proof fn lemma_after_last_colon_at(s: Seq<char>, j: int)
    requires
        0 <= j < s.len(),
        s[j] == ':',
        forall|k: int| j < k < s.len() ==> s[k] != ':',
    ensures
        after_last_colon(s) == Some(s.subrange(j + 1, s.len() as int)),
    decreases s.len(),
{
    if j == s.len() - 1 {
        assert(s.subrange(j + 1, s.len() as int) =~= Seq::<char>::empty());
    } else {
        lemma_after_last_colon_at(s.drop_last(), j);
        assert(s.drop_last().subrange(j + 1, s.len() - 1).push(s.last()) =~= s.subrange(
            j + 1,
            s.len() as int,
        ));
    }
}

/// The suffix of `s` after its last colon, if `s` has a colon: what
/// `rsplit_once` hands back as the tail.
pub fn after_colon<'a>(s: &'a str) -> (r: Option<&'a str>)
    ensures
        match r {
            Some(t) => after_last_colon(s@) == Some(t@),
            None => after_last_colon(s@) is None,
        },
{
    let n = s.unicode_len();
    let mut i = n;
    while i > 0
        invariant
            i <= n,
            n == s@.len(),
            forall|k: int| i <= k < n ==> s@[k] != ':',
        decreases i,
    {
        let c = s.get_char(i - 1);
        if c == ':' {
            let t = s.substring_char(i, n);
            proof {
                lemma_after_last_colon_at(s@, i - 1);
            }
            return Some(t);
        }
        i = i - 1;
    }
    proof {
        lemma_after_last_colon_none(s@);
    }
    None
}

/// Whether `s` begins with the prefix `p`.
pub fn str_starts_with(s: &str, p: &str) -> (r: bool)
    ensures
        r == starts_with(s@, p@),
{
    let pl = p.unicode_len();
    let sl = s.unicode_len();
    if pl <= sl {
        let head = s.substring_char(0, pl);
        str_eq(head, p)
    } else {
        false
    }
}

} // verus!

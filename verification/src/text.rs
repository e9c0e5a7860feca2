//! Verified text helpers: string equality and a specification of splitting
//! a string on a separator character, with the lemmas the parsing code
//! needs.

use vstd::prelude::*;

verus! {

/// No character of `s` in the index range `[lo, hi)` is `sep`.
pub open spec fn sep_free_range(s: Seq<char>, sep: char, lo: int, hi: int) -> bool {
    forall|i: int| lo <= i < hi ==> s[i] != sep
}

/// The segments of `s` between occurrences of `sep`, in order. Splitting
/// never yields an empty sequence: a string without the separator is one
/// segment, and each separator ends a segment, so `n` separators yield
/// `n + 1` segments, empty ones included.
pub open spec fn split_on(s: Seq<char>, sep: char) -> Seq<Seq<char>>
    decreases s.len(),
{
    if s.len() == 0 {
        seq![Seq::<char>::empty()]
    } else if s.last() == sep {
        split_on(s.drop_last(), sep).push(Seq::empty())
    } else {
        let parts = split_on(s.drop_last(), sep);
        parts.update(parts.len() - 1, parts.last().push(s.last()))
    }
}

/// Splitting yields at least one segment.
pub proof fn lemma_split_on_len(s: Seq<char>, sep: char)
    ensures
        split_on(s, sep).len() >= 1,
    decreases s.len(),
{
    if s.len() > 0 {
        lemma_split_on_len(s.drop_last(), sep);
    }
}

/// A string free of the separator is exactly one segment: itself.
pub proof fn lemma_split_on_sep_free(s: Seq<char>, sep: char)
    requires
        sep_free_range(s, sep, 0, s.len() as int),
    ensures
        split_on(s, sep) == seq![s],
    decreases s.len(),
{
    if s.len() == 0 {
        assert(s =~= Seq::<char>::empty());
        assert(split_on(s, sep) =~~= seq![s]);
    } else {
        lemma_split_on_sep_free(s.drop_last(), sep);
        lemma_split_on_len(s.drop_last(), sep);
        assert(s.drop_last().push(s.last()) =~= s);
        assert(split_on(s, sep) =~~= seq![s]);
    }
}

/// If the last separator of `s` stands at index `k`, the segments of `s`
/// are the segments of everything before it, followed by everything after
/// it.
pub proof fn lemma_split_on_last_sep(s: Seq<char>, sep: char, k: int)
    requires
        0 <= k < s.len(),
        s[k] == sep,
        sep_free_range(s, sep, k + 1, s.len() as int),
    ensures
        split_on(s, sep) == split_on(s.take(k), sep).push(s.skip(k + 1)),
    decreases s.len(),
{
    if k == s.len() - 1 {
        assert(s.drop_last() =~= s.take(k));
        assert(s.skip(k + 1) =~= Seq::<char>::empty());
        assert(split_on(s, sep) =~~= split_on(s.take(k), sep).push(s.skip(k + 1)));
    } else {
        lemma_split_on_last_sep(s.drop_last(), sep, k);
        lemma_split_on_len(s.take(k), sep);
        assert(s.drop_last().take(k) =~= s.take(k));
        assert(s.drop_last().skip(k + 1).push(s.last()) =~= s.skip(k + 1));
        assert(split_on(s, sep) =~~= split_on(s.take(k), sep).push(s.skip(k + 1)));
    }
}

/// Whether two strings hold the same characters.
pub fn str_eq(a: &str, b: &str) -> (equal: bool)
    ensures
        equal == (a@ == b@),
{
    let a_len = a.unicode_len();
    if a_len != b.unicode_len() {
        return false;
    }
    let mut i: usize = 0;
    while i < a_len
        invariant
            i <= a_len,
            a_len == a@.len(),
            a_len == b@.len(),
            forall|k: int| 0 <= k < i ==> a@[k] == b@[k],
        decreases a_len - i,
    {
        if a.get_char(i) != b.get_char(i) {
            return false;
        }
        i += 1;
    }
    proof {
        assert(a@ =~= b@);
    }
    true
}

} // verus!

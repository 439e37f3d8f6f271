//! Comparisons on string slices, stated over their sequences of characters.

use vstd::prelude::*;

verus! {

/// Whether two slices hold the same characters.
pub fn same_text(a: &str, b: &str) -> (same: bool)
    ensures
        same == (a@ == b@),
{
    let left = a.to_owned();
    let right = b.to_owned();
    left == right
}

/// The part of `s` behind `prefix`, or `None` when `s` does not begin with `prefix`.
pub fn strip_prefix<'a>(s: &'a str, prefix: &str) -> (rest: Option<&'a str>)
    ensures
        match rest {
            Some(tail) => s@ == prefix@ + tail@,
            None => !prefix@.is_prefix_of(s@),
        },
{
    let total = s.unicode_len();
    let cut = prefix.unicode_len();
    if cut > total {
        return None;
    }
    let head = s.substring_char(0, cut);
    if same_text(head, prefix) {
        let tail = s.substring_char(cut, total);
        assert(s@ =~= prefix@ + tail@);
        Some(tail)
    } else {
        None
    }
}

/// The part of `s` before `suffix`, or `None` when `s` does not end with `suffix`.
pub fn strip_suffix<'a>(s: &'a str, suffix: &str) -> (rest: Option<&'a str>)
    ensures
        match rest {
            Some(head) => s@ == head@ + suffix@,
            None => !suffix@.is_suffix_of(s@),
        },
{
    let total = s.unicode_len();
    let cut = suffix.unicode_len();
    if cut > total {
        return None;
    }
    let tail = s.substring_char(total - cut, total);
    if same_text(tail, suffix) {
        let head = s.substring_char(0, total - cut);
        assert(s@ =~= head@ + suffix@);
        Some(head)
    } else {
        None
    }
}

/// Whether the character `c` occurs in `s`.
pub fn contains_char(s: &str, c: char) -> (found: bool)
    ensures
        found == s@.contains(c),
{
    let total = s.unicode_len();
    let mut i: usize = 0;
    while i < total
        invariant
            total == s@.len(),
            i <= total,
            forall|j: int| 0 <= j < i ==> s@[j] != c,
        decreases total - i,
    {
        if s.get_char(i) == c {
            return true;
        }
        i = i + 1;
    }
    false
}

/// What lies between a prefix and a suffix is determined by the whole.
pub proof fn lemma_enclosed(
    whole: Seq<char>,
    prefix: Seq<char>,
    middle: Seq<char>,
    suffix: Seq<char>,
)
    requires
        whole == prefix + middle + suffix,
    ensures
        whole.len() == prefix.len() + middle.len() + suffix.len(),
        prefix.is_prefix_of(whole),
        suffix.is_suffix_of(whole),
        middle == whole.subrange(prefix.len() as int, whole.len() - suffix.len()),
{
    assert(prefix =~= whole.subrange(0, prefix.len() as int));
    assert(suffix =~= whole.subrange(whole.len() - suffix.len(), whole.len() as int));
    assert(middle =~= whole.subrange(prefix.len() as int, whole.len() - suffix.len()));
}

} // verus!

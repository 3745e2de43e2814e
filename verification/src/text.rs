use vstd::prelude::*;

verus! {

/// `p` is an initial run of `s`.
pub open spec fn has_prefix(s: Seq<char>, p: Seq<char>) -> bool {
    s.len() >= p.len() && s.subrange(0, p.len() as int) == p
}

/// `p` is a final run of `s`.
pub open spec fn has_suffix(s: Seq<char>, p: Seq<char>) -> bool {
    s.len() >= p.len() && s.subrange(s.len() - p.len(), s.len() as int) == p
}

/// Character-by-character equality of two string slices.
pub fn str_eq(a: &str, b: &str) -> (r: bool)
    ensures
        r == (a@ == b@),
{
    let a_len = a.unicode_len();
    let b_len = b.unicode_len();
    if a_len != b_len {
        return false;
    }
    let mut i: usize = 0;
    while i < a_len
        invariant
            0 <= i <= a_len,
            a_len == a@.len(),
            a_len == b@.len(),
            forall|j: int| 0 <= j < i ==> a@[j] == b@[j],
        decreases a_len - i,
    {
        if a.get_char(i) != b.get_char(i) {
            return false;
        }
        i += 1;
    }
    proof {
        assert(a@ =~= b@);
    }
    true
}

/// Whether `s` starts with `p`.
pub fn starts_with_str(s: &str, p: &str) -> (r: bool)
    ensures
        r == has_prefix(s@, p@),
{
    let s_len = s.unicode_len();
    let p_len = p.unicode_len();
    if s_len < p_len {
        return false;
    }
    let head = s.substring_char(0, p_len);
    str_eq(head, p)
}

/// Whether `s` ends with `p`.
pub fn ends_with_str(s: &str, p: &str) -> (r: bool)
    ensures
        r == has_suffix(s@, p@),
{
    let s_len = s.unicode_len();
    let p_len = p.unicode_len();
    if s_len < p_len {
        return false;
    }
    let tail = s.substring_char(s_len - p_len, s_len);
    str_eq(tail, p)
}

/// Whether some character of `s` is `c`.
pub fn contains_char(s: &str, c: char) -> (r: bool)
    ensures
        r == exists|i: int| 0 <= i < s@.len() && s@[i] == c,
{
    let len = s.unicode_len();
    let mut i: usize = 0;
    while i < len
        invariant
            0 <= i <= len,
            len == s@.len(),
            forall|j: int| 0 <= j < i ==> s@[j] != c,
        decreases len - i,
    {
        if s.get_char(i) == c {
            return true;
        }
        i += 1;
    }
    false
}

} // verus!

//! Comparing text with fixed character sequences.
use vstd::prelude::*;
use vstd::string::StrSliceExecFns;

verus! {

/// Whether `pat` occurs in `s` as a run of consecutive characters.
pub open spec fn occurs_in(pat: Seq<char>, s: Seq<char>) -> bool {
    exists|i: int| 0 <= i && i + pat.len() <= s.len() && #[trigger] s.subrange(i, i + pat.len()) == pat
}

/// Whether the characters of `s` from position `at` on begin with `pat`.
pub open spec fn matches_at(s: Seq<char>, at: int, pat: Seq<char>) -> bool {
    at + pat.len() <= s.len() && s.subrange(at, at + pat.len()) == pat
}

/// Whether the characters of `s`, from position `at` (of `len` characters in
/// all), begin with `pat`.
fn matches_at_exec(s: &str, len: usize, at: usize, pat: &[char]) -> (r: bool)
    requires
        len == s@.len(),
        at <= len,
    ensures
        r == matches_at(s@, at as int, pat@),
{
    if pat.len() > len - at {
        return false;
    }
    let mut k: usize = 0;
    while k < pat.len()
        invariant
            len == s@.len(),
            at + pat@.len() <= len,
            k <= pat@.len(),
            forall|j: int| 0 <= j < k ==> s@[at + j] == pat@[j],
        decreases pat@.len() - k,
    {
        if s.get_char(at + k) != pat[k] {
            assert(s@.subrange(at as int, at + pat@.len())[k as int] != pat@[k as int]);
            return false;
        }
        k = k + 1;
    }
    assert(s@.subrange(at as int, at + pat@.len()) =~= pat@);
    true
}

/// Whether `s` consists of exactly the characters `pat`.
pub fn str_equals(s: &str, pat: &[char]) -> (r: bool)
    ensures
        r == (s@ == pat@),
{
    let len = s.unicode_len();
    if len != pat.len() {
        return false;
    }
    let r = matches_at_exec(s, len, 0, pat);
    assert(s@.subrange(0, len as int) =~= s@);
    r
}

/// Whether `pat` occurs in `s`.
pub fn str_contains(s: &str, pat: &[char]) -> (r: bool)
    ensures
        r == occurs_in(pat@, s@),
{
    let len = s.unicode_len();
    let mut at: usize = 0;
    while at < len
        invariant
            len == s@.len(),
            at <= len,
            forall|i: int| 0 <= i < at ==> !matches_at(s@, i, pat@),
        decreases len - at,
    {
        if matches_at_exec(s, len, at, pat) {
            return true;
        }
        at = at + 1;
    }
    if matches_at_exec(s, len, len, pat) {
        return true;
    }
    assert forall|i: int|
        0 <= i && i + pat@.len() <= s@.len() implies #[trigger] s@.subrange(i, i + pat@.len())
        != pat@ by {
        assert(!matches_at(s@, i, pat@));
    }
    false
}

} // verus!

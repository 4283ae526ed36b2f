//! Character-level string predicates (prefix, suffix, substring) with
//! executable checks proved against their mathematical definitions.

use vstd::prelude::*;

verus! {

/// `prefix` is a prefix of `s`.
pub open spec fn has_prefix(s: Seq<char>, prefix: Seq<char>) -> bool {
    prefix.len() <= s.len() && s.subrange(0, prefix.len() as int) == prefix
}

/// `suffix` is a suffix of `s`.
pub open spec fn has_suffix(s: Seq<char>, suffix: Seq<char>) -> bool {
    suffix.len() <= s.len() && s.subrange(s.len() - suffix.len(), s.len() as int) == suffix
}

/// `needle` occurs in `s` at position `i`.
pub open spec fn occurs_at(s: Seq<char>, needle: Seq<char>, i: int) -> bool {
    0 <= i && i + needle.len() <= s.len() && s.subrange(i, i + needle.len()) == needle
}

/// `needle` occurs somewhere in `s` (the empty sequence occurs in every sequence).
pub open spec fn has_substring(s: Seq<char>, needle: Seq<char>) -> bool {
    exists|i: int| occurs_at(s, needle, i)
}

/// The characters of a string slice, in order.
pub fn chars_of(s: &str) -> (v: Vec<char>)
    ensures
        v@ == s@,
{
    broadcast use vstd::string::group_string_axioms;
    let mut v: Vec<char> = Vec::new();
    for c in it: s.chars()
        invariant
            v@ == it.seq().take(it.index()),
    {
        v.push(c);
    }
    v
}


/// Whether `needle` occurs in `s` at position `start`.
pub fn occurs_at_exec(s: &Vec<char>, needle: &Vec<char>, start: usize) -> (res: bool)
    ensures
        res == occurs_at(s@, needle@, start as int),
{
    if needle.len() > s.len() || start > s.len() - needle.len() {
        return false;
    }
    let mut k: usize = 0;
    while k < needle.len()
        invariant
            k <= needle.len(),
            start + needle.len() <= s.len(),
            forall|j: int| 0 <= j < k ==> s@[start + j] == needle@[j],
        decreases needle.len() - k,
    {
        if s[start + k] != needle[k] {
            assert(s@.subrange(start as int, start + needle.len())[k as int] != needle@[k as int]);
            return false;
        }
        k = k + 1;
    }
    assert(s@.subrange(start as int, start + needle.len()) =~= needle@);
    true
}

/// Whether the two character sequences are equal.
pub fn chars_equal(a: &Vec<char>, b: &Vec<char>) -> (res: bool)
    ensures
        res == (a@ == b@),
{
    if a.len() != b.len() {
        return false;
    }
    let res = occurs_at_exec(a, b, 0);
    assert(a@.subrange(0, a@.len() as int) =~= a@);
    res
}

/// Whether `s` equals `t`, character by character.
pub fn str_equal(s: &str, t: &str) -> (res: bool)
    ensures
        res == (s@ == t@),
{
    chars_equal(&chars_of(s), &chars_of(t))
}

/// Whether `prefix` is a prefix of `s`.
pub fn starts_with(s: &str, prefix: &str) -> (res: bool)
    ensures
        res == has_prefix(s@, prefix@),
{
    occurs_at_exec(&chars_of(s), &chars_of(prefix), 0)
}

/// Whether `suffix` is a suffix of `s`.
pub fn ends_with(s: &str, suffix: &str) -> (res: bool)
    ensures
        res == has_suffix(s@, suffix@),
{
    let sv = chars_of(s);
    let xv = chars_of(suffix);
    if xv.len() > sv.len() {
        return false;
    }
    occurs_at_exec(&sv, &xv, sv.len() - xv.len())
}

/// Whether `needle` occurs somewhere in `s`.
pub fn contains(s: &str, needle: &str) -> (res: bool)
    ensures
        res == has_substring(s@, needle@),
{
    let sv = chars_of(s);
    let nv = chars_of(needle);
    if nv.len() > sv.len() {
        return false;
    }
    let last = sv.len() - nv.len();
    let mut i: usize = 0;
    while i < last
        invariant
            i <= last,
            last + nv@.len() == sv@.len(),
            sv@ == s@,
            nv@ == needle@,
            forall|j: int| 0 <= j < i ==> !occurs_at(s@, needle@, j),
        decreases last - i,
    {
        if occurs_at_exec(&sv, &nv, i) {
            return true;
        }
        i = i + 1;
    }
    let found = occurs_at_exec(&sv, &nv, last);
    assert(!found ==> forall|j: int| !occurs_at(s@, needle@, j)) by {
        if !found {
            assert forall|j: int| !occurs_at(s@, needle@, j) by {
                if 0 <= j && j < last {
                    assert(j < i);
                }
            }
        }
    }
    found
}

/// The Unicode lowercase image of a character sequence, as computed by
/// `str::to_lowercase`.
pub uninterp spec fn unicode_lowercase(s: Seq<char>) -> Seq<char>;

/// Every character is ASCII.
pub open spec fn all_ascii(s: Seq<char>) -> bool {
    forall|i: int| 0 <= i < s.len() ==> (s[i] as u32) < 128
}

/// The lowercase of an ASCII character: `A`..=`Z` become `a`..=`z`, every
/// other character stays as it is.
pub open spec fn ascii_char_lowercase(c: char) -> char {
    if 65 <= (c as u32) <= 90 {
        ((c as u32) + 32) as char
    } else {
        c
    }
}

/// The character-wise ASCII lowercase of a sequence.
pub open spec fn ascii_lowercase(s: Seq<char>) -> Seq<char> {
    s.map_values(|c: char| ascii_char_lowercase(c))
}

/// Calls std's `str::to_lowercase`. The contract claims that the result is a
/// function of the argument's characters, named `unicode_lowercase`, and,
/// for ASCII input, what the Unicode lowercase mapping documented there
/// gives: `A`..=`Z` become `a`..=`z` and every other character is kept. The
/// Unicode case tables for other characters are not restated.
#[verifier::external_body]
pub(crate) fn to_lowercase(s: &str) -> (res: String)
    ensures
        res@ == unicode_lowercase(s@),
        all_ascii(s@) ==> res@ == ascii_lowercase(s@),
{
    s.to_lowercase()
}

} // verus!

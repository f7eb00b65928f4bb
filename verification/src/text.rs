//! Text primitives: the mathematical meaning of ASCII lower-casing and of
//! substring containment, and the standard-library calls that compute them.

use vstd::prelude::*;
use vstd::string::*;

verus! {

/// The ASCII lower-case equivalent of `c`: `'A'..='Z'` map to `'a'..='z'`,
/// every other character is unchanged.
pub open spec fn ascii_lower_char(c: char) -> char {
    if 'A' <= c && c <= 'Z' {
        ((c as u32) + 32) as char
    } else {
        c
    }
}

/// `s` with every character replaced by its ASCII lower-case equivalent.
pub open spec fn ascii_lower(s: Seq<char>) -> Seq<char> {
    s.map_values(|c: char| ascii_lower_char(c))
}

/// `needle` stands in `hay` at offset `at`.
pub open spec fn occurs_at(hay: Seq<char>, needle: Seq<char>, at: int) -> bool {
    &&& 0 <= at
    &&& at + needle.len() <= hay.len()
    &&& hay.subrange(at, at + needle.len()) == needle
}

/// `needle` is a contiguous run of `hay`. The empty sequence is contained in
/// every sequence.
pub open spec fn contains_seq(hay: Seq<char>, needle: Seq<char>) -> bool {
    exists|at: int| occurs_at(hay, needle, at)
}

/// What `str::trim` returns for a text: the text without its leading and
/// trailing white space, as Unicode defines white space.
pub uninterp spec fn trimmed(line: Seq<char>) -> Seq<char>;

/// The texts of a vector of strings, in order.
pub open spec fn texts(v: Seq<String>) -> Seq<Seq<char>> {
    v.map_values(|s: String| s@)
}

/// Every sequence contains itself.
pub proof fn lemma_contains_self(s: Seq<char>)
    ensures
        contains_seq(s, s),
{
    assert(s.subrange(0, s.len() as int) =~= s);
    assert(occurs_at(s, s, 0));
}

/// Trusted: calls `str::to_ascii_lowercase`. The standard library documents
/// that the result is a copy in which each ASCII upper-case letter is replaced
/// by its lower-case equivalent and nothing else changes.
#[verifier::external_body]
pub(crate) fn to_ascii_lowercase(s: &str) -> (lowered: String)
    ensures
        lowered@ == ascii_lower(s@),
{
    s.to_ascii_lowercase()
}

/// Trusted: calls `str::contains` with a string pattern. The standard library
/// documents that it tells whether the pattern matches a sub-slice of the
/// string.
#[verifier::external_body]
pub(crate) fn str_contains(hay: &str, needle: &str) -> (found: bool)
    ensures
        found == contains_seq(hay@, needle@),
{
    hay.contains(needle)
}

/// Trusted: calls `str::trim` and copies the slice it returns. The result
/// depends on the text alone; the contract gives it its name and says no
/// more of it.
#[verifier::external_body]
pub(crate) fn trim(line: &str) -> (text: String)
    ensures
        text@ == trimmed(line@),
{
    line.trim().to_string()
}

/// Tells whether two texts are the same.
pub fn same_text(a: &str, b: &str) -> (same: bool)
    ensures
        same == (a@ == b@),
{
    String::from_str(a) == String::from_str(b)
}

} // verus!

//! Substring containment over the characters of a request.

use vstd::prelude::*;
use vstd::utf8::{decode_utf8, valid_utf8};

verus! {

/// `needle` stands in `hay` starting at position `at`.
pub open spec fn occurs_at(needle: Seq<char>, hay: Seq<char>, at: int) -> bool {
    &&& 0 <= at
    &&& at + needle.len() <= hay.len()
    &&& hay.subrange(at, at + needle.len()) == needle
}

/// `needle` stands somewhere in `hay` as a contiguous run of characters.
pub open spec fn occurs_in(needle: Seq<char>, hay: Seq<char>) -> bool {
    exists|at: int| occurs_at(needle, hay, at)
}

/// Whether `needle` is a substring of `hay`.
///
/// Calls `str::contains` with a string pattern. Trusted: std documents that
/// it returns true exactly when the pattern matches a sub-slice of the string.
/// Both arguments are valid UTF-8, so a match on bytes is a match on whole
/// characters, which is what `occurs_in` states.
#[verifier::external_body]
pub(crate) fn str_contains(hay: &str, needle: &str) -> (found: bool)
    ensures
        found == occurs_in(needle@, hay@),
{
    hay.contains(needle)
}

/// The text that lossy UTF-8 decoding makes of `bytes`: valid sequences
/// decoded, each invalid one replaced by U+FFFD. It depends on the bytes alone.
pub uninterp spec fn lossy_utf8(bytes: Seq<u8>) -> Seq<char>;

/// Decodes received bytes as UTF-8; invalid sequences are replaced, never
/// fatal.
///
/// Calls `String::from_utf8_lossy` and takes ownership of what it returns.
/// Trusted: the result is `lossy_utf8` of the bytes, a name for what std
/// computes; and, as std documents, bytes that are valid UTF-8 come back as
/// the string they encode, with nothing replaced. What becomes of invalid
/// bytes is left to the name.
#[verifier::external_body]
pub(crate) fn decode_lossy(bytes: &[u8]) -> (text: String)
    ensures
        text@ == lossy_utf8(bytes@),
        valid_utf8(bytes@) ==> text@ == decode_utf8(bytes@),
{
    String::from_utf8_lossy(bytes).into_owned()
}

} // verus!

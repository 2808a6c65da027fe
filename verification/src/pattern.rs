//! Regular expressions, as far as a statement uses them: one search of one
//! text with one pattern.

use vstd::prelude::*;

verus! {

/// Whether `regex::Regex::new` accepts the pattern.
pub uninterp spec fn regex_compiles(pattern: Seq<char>) -> bool;

/// Whether the regular expression compiled from the pattern has a match
/// anywhere in the text, as `regex::Regex::is_match` reports it.
pub uninterp spec fn regex_matches(pattern: Seq<char>, hay: Seq<char>) -> bool;

/// `regex::Error`: why a pattern does not compile. Carried through unread.
#[verifier::external_type_specification]
#[verifier::external_body]
pub struct ExRegexError(regex::Error);

/// `regex::Regex::new`, followed by `regex::Regex::is_match` on the compiled
/// expression. Believed: whether the pattern compiles depends on the pattern
/// alone, and whether there is a match on the pattern and the text alone.
#[verifier::external_body]
pub(crate) fn regex_search(pattern: &str, hay: &str) -> (r: Result<bool, regex::Error>)
    ensures
        r.is_ok() == regex_compiles(pattern@),
        r matches Ok(b) ==> b == regex_matches(pattern@, hay@),
{
    match regex::Regex::new(pattern) {
        Ok(re) => Ok(re.is_match(hay)),
        Err(e) => Err(e),
    }
}

} // verus!

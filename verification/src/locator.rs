//! Absolute URLs, as far as the firewall reads them: whether a text parses
//! as one, and the name/value pairs of its query.

use vstd::prelude::*;

verus! {

/// What the firewall reads from a parsed URL.
pub struct Locator {
    /// The pairs of the query, percent-decoded, in the order they occur.
    pub query_pairs: Vec<(String, String)>,
}

/// The views of a sequence of name/value pairs, in order.
pub open spec fn pair_texts(v: Seq<(String, String)>) -> Seq<(Seq<char>, Seq<char>)> {
    Seq::new(v.len(), |i: int| (v[i].0@, v[i].1@))
}

/// Whether `url::Url::parse` accepts the text as an absolute URL.
pub uninterp spec fn url_parses(s: Seq<char>) -> bool;

/// The decoded pairs that `url::Url::query_pairs` yields for the URL that the
/// text parses to.
pub uninterp spec fn url_query_pairs(s: Seq<char>) -> Seq<(Seq<char>, Seq<char>)>;

/// `url::ParseError`: why a text is no URL. Carried through unread.
#[verifier::external_type_specification]
#[verifier::external_body]
pub struct ExParseError(url::ParseError);

/// `url::Url::parse`, followed by `url::Url::query_pairs` on the parsed URL.
/// Believed: success depends on the text alone, and so do the decoded pairs,
/// which come in the order of the query.
#[verifier::external_body]
pub(crate) fn parse_url(s: &str) -> (r: Result<Locator, url::ParseError>)
    ensures
        r.is_ok() == url_parses(s@),
        r matches Ok(l) ==> pair_texts(l.query_pairs@) == url_query_pairs(s@),
{
    match url::Url::parse(s) {
        Ok(u) => Ok(Locator { query_pairs: u.query_pairs().into_owned().collect() }),
        Err(e) => Err(e),
    }
}

} // verus!

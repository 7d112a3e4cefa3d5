//! What the library takes from `reqwest`'s URL type.
use vstd::prelude::*;

verus! {

/// The text of the URL `base` with the query pair `key=value` appended, or
/// `None` where `base` does not parse as a URL. It depends on the three texts
/// alone.
pub uninterp spec fn url_with_query_pair(base: Seq<char>, key: Seq<char>, value: Seq<char>) -> Option<Seq<char>>;

/// Parses `base` with `reqwest::Url::parse` and appends the query pair with
/// `query_pairs_mut().append_pair`, which form-encodes it; gives the text of
/// the result.
#[verifier::external_body]
pub(crate) fn url_append_query_pair(base: &str, key: &str, value: &str) -> (r: Option<String>)
    ensures
        r matches Some(u) ==> url_with_query_pair(base@, key@, value@) == Some(u@),
        r is None <==> url_with_query_pair(base@, key@, value@) is None,
{
    let mut url = reqwest::Url::parse(base).ok()?;
    url.query_pairs_mut().append_pair(key, value);
    Some(url.to_string())
}

/// The text `text` parsed as a URL and written back in its normal form, or
/// `None` where it is not a URL. It depends on the text alone.
pub uninterp spec fn url_parsed(text: Seq<char>) -> Option<Seq<char>>;

/// Parses `text` with `reqwest::Url::parse` and gives the text of the result.
#[verifier::external_body]
pub(crate) fn parse_url(text: &str) -> (r: Option<String>)
    ensures
        r is None <==> url_parsed(text@) is None,
        r matches Some(u) ==> url_parsed(text@) == Some(u@),
{
    reqwest::Url::parse(text).ok().map(|url| url.to_string())
}

} // verus!

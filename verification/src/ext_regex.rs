//! What the library takes from `regex`.
use vstd::prelude::*;

verus! {

/// The groups captured by the first match of `pattern` in `haystack`, by
/// group number (group 0 is the whole match; a group that took no part is
/// `None`), or `None` where the pattern does not compile or does not match.
/// It depends on the two texts alone.
pub uninterp spec fn regex_captures_of(pattern: Seq<char>, haystack: Seq<char>) -> Option<Seq<Option<Seq<char>>>>;

/// The texts of captured groups.
pub open spec fn group_views(groups: Seq<Option<String>>) -> Seq<Option<Seq<char>>> {
    groups.map_values(|g: Option<String>| match g {
        Some(s) => Some(s@),
        None => None,
    })
}

/// Compiles `pattern` with `regex::Regex::new` and takes `captures` of
/// `haystack`, giving each group's text in group order.
#[verifier::external_body]
pub(crate) fn regex_captures(pattern: &str, haystack: &str) -> (r: Option<Vec<Option<String>>>)
    ensures
        r matches Some(groups) ==> regex_captures_of(pattern@, haystack@) == Some(group_views(groups@)),
        r is None <==> regex_captures_of(pattern@, haystack@) is None,
{
    let regex = regex::Regex::new(pattern).ok()?;
    let captures = regex.captures(haystack)?;
    Some(captures.iter().map(|group| group.map(|m| m.as_str().to_string())).collect())
}

} // verus!

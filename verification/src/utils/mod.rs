//! Link extraction from free-form chat text.

pub mod google;

use vstd::prelude::*;

verus! {

/// The first link a text holds, if any: what linkify's finder yields. The
/// result depends on the characters alone, so it can be named without a
/// body.
pub uninterp spec fn first_link_of(s: Seq<char>) -> Option<Seq<char>>;

/// Extract the first URL of a string.
///
/// Relies on linkify::LinkFinder::links: the first link found in the text,
/// a function of the characters alone; an empty text holds none.
#[verifier::external_body]
pub fn extract_url(input: &str) -> (r: Option<String>)
    ensures
        match r {
            Some(u) => first_link_of(input@) == Some(u@),
            None => first_link_of(input@) is None,
        },
        input@.len() == 0 ==> r is None,
{
    let finder = linkify::LinkFinder::new();
    finder.links(input).next().map(|l| l.as_str().to_string())
}

/// Does the text hold a URL?
pub fn has_url(input: &str) -> (r: bool)
    ensures
        r == (first_link_of(input@) is Some),
{
    extract_url(input).is_some()
}

} // verus!

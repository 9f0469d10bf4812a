//! The parts of an address, as the `url` crate parses them.

use vstd::prelude::*;

verus! {

/// The scheme of an address; `None` for a text that is no absolute URL.
pub uninterp spec fn url_scheme_of(url: Seq<char>) -> Option<Seq<char>>;

/// The host of an address where it is a domain name; `None` where the text
/// is no absolute URL, or has no host, or has a numeric address for one.
pub uninterp spec fn url_domain_of(url: Seq<char>) -> Option<Seq<char>>;

/// The segments of the path of an address, in order; `None` where the text
/// is no absolute URL or its kind has no path of segments.
pub uninterp spec fn url_path_segments_of(url: Seq<char>) -> Option<Seq<Seq<char>>>;

/// The texts as sequences of characters.
pub open spec fn views_of(texts: Seq<String>) -> Seq<Seq<char>> {
    Seq::new(texts.len(), |i: int| texts[i]@)
}

/// `Url::parse` and `Url::scheme` of the url crate. The scheme is there
/// exactly when the text parses as an absolute URL.
#[verifier::external_body]
pub(crate) fn url_scheme(url: &str) -> (scheme: Option<String>)
    ensures
        match scheme {
            Some(text) => url_scheme_of(url@) == Some(text@),
            None => url_scheme_of(url@) is None,
        },
{
    url::Url::parse(url).ok().map(|parsed| parsed.scheme().to_string())
}

/// `Url::parse` and `Url::domain` of the url crate.
#[verifier::external_body]
pub(crate) fn url_domain(url: &str) -> (domain: Option<String>)
    ensures
        match domain {
            Some(text) => url_domain_of(url@) == Some(text@),
            None => url_domain_of(url@) is None,
        },
{
    url::Url::parse(url).ok().and_then(|parsed| parsed.domain().map(|domain| domain.to_string()))
}

/// `Url::parse` and `Url::path_segments` of the url crate.
#[verifier::external_body]
pub(crate) fn url_path_segments(url: &str) -> (segments: Option<Vec<String>>)
    ensures
        match segments {
            Some(texts) => url_path_segments_of(url@) == Some(views_of(texts@)),
            None => url_path_segments_of(url@) is None,
        },
{
    url::Url::parse(url).ok().and_then(
        |parsed| parsed.path_segments().map(|parts| parts.map(|part| part.to_string()).collect()),
    )
}

} // verus!

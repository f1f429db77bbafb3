//! The crate's own view of a parsed URL: the components the crawl logic
//! reads, held as plain strings.  Parsing itself is the url crate's work.
use vstd::prelude::*;

verus! {

/// The parts of a parsed and normalized URL that the crawl logic consults.
/// The serialization of a parsed URL is ASCII (hosts are punycoded and paths
/// percent-encoded).
#[derive(Debug, PartialEq, Eq)]
pub struct UrlInfo {
    /// The whole normalized serialization.
    pub full: String,
    /// The scheme, lowercased by normalization.
    pub scheme: String,
    /// The registrable domain, absent for IP hosts and schemes without one.
    pub domain: Option<String>,
    /// The host serialization, absent for schemes without a host.
    pub host: Option<String>,
    /// The percent-encoded path.
    pub path: String,
    /// The query string, without the leading question mark.
    pub query: Option<String>,
}

/// What a given URL string parses to, or `None` where it is not an absolute
/// URL; the result is a function of the text alone.
pub uninterp spec fn url_parts_of(s: Seq<char>) -> Option<UrlInfo>;

/// Relies on url::Url::parse and its accessors: each component is carried
/// over as a plain string, and parsing invalid text yields `None`.
#[verifier::external_body]
pub fn parse_url(s: &str) -> (r: Option<UrlInfo>)
    ensures
        r == url_parts_of(s@),
{
    match url::Url::parse(s) {
        Ok(u) => Some(UrlInfo {
            full: u.as_str().to_string(),
            scheme: u.scheme().to_string(),
            domain: u.domain().map(|d| d.to_string()),
            host: u.host_str().map(|h| h.to_string()),
            path: u.path().to_string(),
            query: u.query().map(|q| q.to_string()),
        }),
        Err(_) => None,
    }
}

} // verus!

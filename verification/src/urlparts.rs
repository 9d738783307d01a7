//! A parsed URL, reduced to the plain values the library reads: the text it
//! was parsed from, the host, and the slash-separated path segments.
//!
//! Parsing itself is the `url` crate's work; everything downstream of the
//! parse is verified against the names given to its results here.

use vstd::prelude::*;
use crate::error::{ErrorModel, VideoSourceError};

verus! {

/// What the library keeps of a parsed URL.
pub struct UrlParts {
    /// The text the URL was parsed from.
    pub raw: String,
    /// The host, absent for URLs without one (`unix:`, `data:`, ...).
    pub host: Option<String>,
    /// The path segments, absent for cannot-be-a-base URLs.
    pub segments: Option<Vec<String>>,
}

impl UrlParts {
    /// The host, as the contracts see it.
    pub open spec fn host_view(&self) -> Option<Seq<char>> {
        self.host.deep_view()
    }

    /// The path segments, as the contracts see them.
    pub open spec fn segments_view(&self) -> Option<Seq<Seq<char>>> {
        self.segments.deep_view()
    }
}

/// Whether `url::Url::parse` accepts the text as an absolute URL.
pub uninterp spec fn url_parse_ok(s: Seq<char>) -> bool;

/// The host `url::Url::host_str` reports for the URL parsed from `s`,
/// when the parse succeeds.
pub uninterp spec fn url_host_of(s: Seq<char>) -> Option<Seq<char>>;

/// The path segments `url::Url::path_segments` reports for the URL parsed
/// from `s`, when the parse succeeds.
pub uninterp spec fn url_segments_of(s: Seq<char>) -> Option<Seq<Seq<char>>>;

/// Relies on `url::Url::parse`, which accepts exactly the absolute URLs, and
/// on `Url::host_str` and `Url::path_segments`, which report the parsed
/// host (absent for host-less URLs) and the slash-separated path segments
/// (absent for cannot-be-a-base URLs). All three depend on the input text
/// alone.
#[verifier::external_body]
pub fn parse_url_parts(s: &str) -> (r: Option<UrlParts>)
    ensures
        r is Some <==> url_parse_ok(s@),
        r matches Some(p) ==> {
            &&& p.raw@ == s@
            &&& p.host.deep_view() == url_host_of(s@)
            &&& p.segments.deep_view() == url_segments_of(s@)
        },
{
    match url::Url::parse(s) {
        Ok(u) => Some(UrlParts {
            raw: s.to_string(),
            host: u.host_str().map(|h| h.to_string()),
            segments: u.path_segments().map(|it| it.map(|seg| seg.to_string()).collect()),
        }),
        Err(_) => None,
    }
}

/// Every URL text in the sequence parses.
pub open spec fn spec_all_parse_ok(urls: Seq<Seq<char>>) -> bool {
    forall|k: int| 0 <= k < urls.len() ==> url_parse_ok(#[trigger] urls[k])
}

/// The first URL text in the sequence that does not parse; meaningful only
/// when one exists.
pub open spec fn spec_first_unparsable(urls: Seq<Seq<char>>) -> int
    decreases urls.len(),
{
    if urls.len() == 0 {
        0
    } else if !url_parse_ok(urls[0]) {
        0
    } else {
        1 + spec_first_unparsable(urls.drop_first())
    }
}

/// A position whose predecessors all parse and which does not parse is the
/// first unparsable position.
pub proof fn lemma_first_unparsable(urls: Seq<Seq<char>>, k: int)
    requires
        0 <= k < urls.len(),
        !url_parse_ok(urls[k]),
        forall|j: int| 0 <= j < k ==> url_parse_ok(#[trigger] urls[j]),
    ensures
        spec_first_unparsable(urls) == k,
    decreases k,
{
    if k > 0 {
        let rest = urls.drop_first();
        assert(forall|j: int| 0 <= j < k - 1 ==> url_parse_ok(#[trigger] rest[j]));
        lemma_first_unparsable(rest, k - 1);
    }
}

/// Validate a URL text, keeping it as it was written; rejection carries the
/// text in a request error.
pub fn parse_url(url: &str) -> (r: Result<String, VideoSourceError>)
    ensures
        url_parse_ok(url@) ==> (r matches Ok(u) && u@ == url@),
        !url_parse_ok(url@) ==> (r matches Err(e) && e@ == ErrorModel::RequestError("无效的地址: "@ + url@)),
{
    match parse_url_parts(url) {
        Some(_) => Ok(String::from_str(url)),
        None => Err(VideoSourceError::RequestError(String::from_str("无效的地址: ").concat(url))),
    }
}

} // verus!

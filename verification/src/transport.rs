//! The plain-value description of an HTTP call, and the mapping of transport
//! statuses into the error taxonomy.
//!
//! The library never performs the call itself: it hands one of these request
//! descriptions out, and judges the status and body that come back.

use vstd::prelude::*;
use crate::error::{ErrorModel, VideoSourceError};

verus! {

#[derive(Debug, Eq, PartialEq, Clone, Copy, Structural)]
pub enum HttpMethod {
    Get,
    Post,
}

/// Everything a transport needs to issue one call: method, endpoint, query
/// parameters in order, the credential header to attach (if any), and a
/// serialized body for posts.
#[derive(Debug)]
pub struct HttpRequest {
    pub method: HttpMethod,
    /// The endpoint, already validated as a URL.
    pub url: String,
    /// Query parameters, appended in this order.
    pub query: Vec<(String, String)>,
    /// The credential to send as the cookie header, when one is to be sent.
    pub cookie: Option<String>,
    /// The JSON body, for posts.
    pub body: Option<String>,
}

/// Query parameters as the contracts see them: pairs of character
/// sequences, in order.
pub open spec fn query_view(q: Seq<(String, String)>) -> Seq<(Seq<char>, Seq<char>)> {
    Seq::new(q.len(), |i: int| (q[i].0@, q[i].1@))
}

impl HttpRequest {
    /// The query parameters, as the contracts see them.
    pub open spec fn spec_query(&self) -> Seq<(Seq<char>, Seq<char>)> {
        query_view(self.query@)
    }
}

/// The canonical reason phrase `http::StatusCode::canonical_reason` reports
/// for a numeric status, absent for statuses outside 100..=999 and for
/// statuses without a canonical phrase.
pub uninterp spec fn canonical_reason_of(status: u16) -> Option<Seq<char>>;

/// Relies on `http::StatusCode::from_u16`, which accepts exactly 100..=999,
/// and on `StatusCode::canonical_reason`, a fixed table lookup; the result
/// depends on the numeric status alone.
#[verifier::external_body]
fn status_reason(status: u16) -> (r: Option<String>)
    ensures
        r.deep_view() == canonical_reason_of(status),
{
    http::StatusCode::from_u16(status)
        .ok()
        .and_then(|code| code.canonical_reason())
        .map(|reason| reason.to_string())
}

/// A success status: anything in the 200 range.
pub open spec fn spec_status_ok(status: u16) -> bool {
    200 <= status <= 299
}

/// The message a non-success status is reported with: the canonical reason
/// phrase, or a fixed fallback when the status has none.
pub open spec fn spec_status_error_message(status: u16) -> Seq<char> {
    match canonical_reason_of(status) {
        Some(reason) => reason,
        None => "请求错误"@,
    }
}

/// Judge a transport status: the 200 range passes; anything outside it is
/// a request error carrying the status's canonical reason phrase.
pub fn http_request_outcome(status: u16) -> (r: Result<(), VideoSourceError>)
    ensures
        spec_status_ok(status) ==> r is Ok,
        !spec_status_ok(status) ==> (r matches Err(e) && e@ == ErrorModel::RequestError(
            spec_status_error_message(status),
        )),
{
    if 200 <= status && status <= 299 {
        Ok(())
    } else {
        match status_reason(status) {
            Some(reason) => Err(VideoSourceError::RequestError(reason)),
            None => Err(VideoSourceError::RequestError(String::from_str("请求错误"))),
        }
    }
}

} // verus!

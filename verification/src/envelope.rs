//! The platform's generic `{code, message, data}` response envelope, and the
//! uniform mapping from its status codes to the error taxonomy.

use vstd::prelude::*;
use crate::error::{ErrorModel, VideoSourceError};

verus! {

/// The envelope every endpoint wraps its payload in. The payload key varies
/// across endpoints (`data` or `result`); whoever parses the body accepts
/// either alias and stores it here.
#[derive(Debug)]
pub struct Response<T> {
    /// `0` on success; a small set of negative codes on failure.
    pub code: i32,
    /// The remote's human-readable message.
    pub message: String,
    /// The payload, when the remote sent one.
    pub data: Option<T>,
}

/// The error a call site that requires a payload reports for an envelope
/// that does not deliver one: not-found carrying the request URL for a
/// successful-but-empty envelope and for code `-404`, otherwise a request
/// error carrying the remote message.
pub open spec fn spec_envelope_error<T>(result: Response<T>, url: Seq<char>) -> ErrorModel {
    if result.code == 0 || result.code == -404 {
        ErrorModel::NoSuchResource(url)
    } else {
        ErrorModel::RequestError(result.message@)
    }
}

/// Decode an envelope whose payload may legitimately be absent: code `0`
/// yields the payload as it came; `-404` yields not-found carrying the
/// request URL; any other non-zero code yields a request error carrying the
/// remote message.
pub fn wrap_response_null<T>(result: Response<T>, url: &str) -> (r: Result<
    Option<T>,
    VideoSourceError,
>)
    ensures
        result.code == 0 ==> (r matches Ok(d) && d == result.data),
        result.code == -404 ==> (r matches Err(e) && e@ == ErrorModel::NoSuchResource(url@)),
        result.code != 0 && result.code != -404 ==> (r matches Err(e) && e@
            == ErrorModel::RequestError(result.message@)),
{
    match result.code {
        0 => Ok(result.data),
        -400 => Err(VideoSourceError::RequestError(result.message)),
        -404 => Err(VideoSourceError::NoSuchResource(String::from_str(url))),
        _ => Err(VideoSourceError::RequestError(result.message)),
    }
}

/// Decode an envelope for a call site that requires a payload: as
/// `wrap_response_null`, except that a successful envelope without a payload
/// is itself not-found, carrying the request URL.
pub fn wrap_response_not_null<T>(result: Response<T>, url: &str) -> (r: Result<
    T,
    VideoSourceError,
>)
    ensures
        result.code == 0 && result.data is Some ==> (r matches Ok(d) && result.data == Some(d)),
        result.code == 0 && result.data is None ==> (r matches Err(e) && e@
            == ErrorModel::NoSuchResource(url@)),
        result.code == -404 ==> (r matches Err(e) && e@ == ErrorModel::NoSuchResource(url@)),
        result.code != 0 && result.code != -404 ==> (r matches Err(e) && e@
            == ErrorModel::RequestError(result.message@)),
{
    match wrap_response_null(result, url) {
        Ok(Some(data)) => Ok(data),
        Ok(None) => Err(VideoSourceError::NoSuchResource(String::from_str(url))),
        Err(e) => Err(e),
    }
}

} // verus!

//! The uniform error taxonomy of the library.
//!
//! Every failing operation reports one of these variants, carrying enough
//! context (a URL, an identifier, or the remote message) for the caller to
//! present an actionable message.

use vstd::prelude::*;

verus! {

/// Everything that can go wrong while resolving a video source.
#[derive(Debug)]
pub enum VideoSourceError {
    /// The transport layer failed (connection error, malformed body);
    /// the message is surfaced verbatim.
    TransportFailure(String),
    /// A credential is required but none is set; recoverable by supplying one.
    NeedLogin,
    /// The remote API reported a generic failure; the message is the remote's.
    RequestError(String),
    /// The remote API reported not-found, a required field was absent,
    /// or no stream candidate matched; carries the request context.
    NoSuchResource(String),
    /// The input URL is not recognized by the source.
    InvalidUrl(String),
}

/// The mathematical shape of an error: each variant with its message
/// as a sequence of characters.
pub enum ErrorModel {
    TransportFailure(Seq<char>),
    NeedLogin,
    RequestError(Seq<char>),
    NoSuchResource(Seq<char>),
    InvalidUrl(Seq<char>),
}

impl View for VideoSourceError {
    type V = ErrorModel;

    open spec fn view(&self) -> ErrorModel {
        match self {
            VideoSourceError::TransportFailure(m) => ErrorModel::TransportFailure(m@),
            VideoSourceError::NeedLogin => ErrorModel::NeedLogin,
            VideoSourceError::RequestError(m) => ErrorModel::RequestError(m@),
            VideoSourceError::NoSuchResource(m) => ErrorModel::NoSuchResource(m@),
            VideoSourceError::InvalidUrl(m) => ErrorModel::InvalidUrl(m@),
        }
    }
}

impl VideoSourceError {
    /// A human-readable rendering of the error, prefix plus context.
    pub fn message(&self) -> (r: String)
        ensures
            r@ == self.spec_message(),
    {
        match self {
            VideoSourceError::TransportFailure(m) => String::from_str("错误: ").concat(m.as_str()),
            VideoSourceError::NeedLogin => String::from_str("需要登录"),
            VideoSourceError::RequestError(m) => String::from_str("请求错误: ").concat(m.as_str()),
            VideoSourceError::NoSuchResource(m) => String::from_str("找不到资源: ").concat(m.as_str()),
            VideoSourceError::InvalidUrl(m) => String::from_str("无效的链接: ").concat(m.as_str()),
        }
    }

    /// What `message` returns, variant by variant.
    pub open spec fn spec_message(&self) -> Seq<char> {
        match self {
            VideoSourceError::TransportFailure(m) => "错误: "@ + m@,
            VideoSourceError::NeedLogin => "需要登录"@,
            VideoSourceError::RequestError(m) => "请求错误: "@ + m@,
            VideoSourceError::NoSuchResource(m) => "找不到资源: "@ + m@,
            VideoSourceError::InvalidUrl(m) => "无效的链接: "@ + m@,
        }
    }
}

} // verus!

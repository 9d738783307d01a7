//! The common contract every platform source implements: URL recognition and
//! credential management, plus the registry that picks the first source
//! recognizing a URL.

use vstd::prelude::*;
use crate::urlparts::UrlParts;

verus! {

/// The container format a caller can ask for.
#[derive(Debug, Eq, PartialEq, Clone, Copy, Structural)]
pub enum VideoType {
    Flv,
    MP4,
}

/// One fully resolved playable unit: its title, optional cover, and the
/// concrete stream URLs at the resolved quality.
#[derive(Debug)]
pub struct VideoInfo {
    /// Cover image URL, when the platform supplies one.
    pub pic: Option<String>,
    pub title: String,
    pub video_type: VideoType,
    /// The platform resolution code the streams were resolved at.
    pub dimension: i32,
    /// Video stream URLs, never empty.
    pub video: Vec<String>,
    /// Audio stream URLs; empty when the video streams are already muxed.
    pub audio: Vec<String>,
}

/// A platform source: recognizes its own URLs and holds an optional
/// credential.
pub trait VideoSource: Sized {
    /// Which URLs this source claims.
    spec fn recognizes(&self, url: &UrlParts) -> bool;

    /// The credential currently held.
    spec fn spec_token(&self) -> Option<Seq<char>>;

    /// The display name of the source.
    spec fn spec_pretty_name(&self) -> Seq<char>;

    fn pretty_name(&self) -> (r: &'static str)
        ensures
            r@ == self.spec_pretty_name(),
    ;

    /// Whether this source recognizes the URL; a pure predicate, so a
    /// registry can probe sources without side effects.
    fn valid(&self, url: &UrlParts) -> (r: bool)
        ensures
            r == self.recognizes(url),
    ;

    fn set_token(&mut self, token: String)
        ensures
            final(self).spec_token() == Some(token@),
    ;

    fn token(&self) -> (r: Option<&str>)
        ensures
            match r {
                Some(t) => self.spec_token() == Some(t@),
                None => self.spec_token() is None,
            },
    ;
}

/// Pick the first registered source whose classifier recognizes the URL, in
/// registration order; `None` when no source matches, in which case no
/// resolution is ever started for the URL.
pub fn dispatch<S: VideoSource>(sources: &Vec<S>, url: &UrlParts) -> (r: Option<usize>)
    ensures
        match r {
            Some(i) => i < sources@.len() && sources@[i as int].recognizes(url)
                && forall|j: int| 0 <= j < i ==> !sources@[j].recognizes(url),
            None => forall|j: int| 0 <= j < sources@.len() ==> !sources@[j].recognizes(url),
        },
{
    let n = sources.len();
    let mut k: usize = 0;
    while k < n
        invariant
            0 <= k <= n,
            n == sources@.len(),
            forall|j: int| 0 <= j < k ==> !sources@[j].recognizes(url),
        decreases n - k,
    {
        if sources[k].valid(url) {
            return Some(k);
        }
        k = k + 1;
    }
    None
}

} // verus!

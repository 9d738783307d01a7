//! The Bilibili platform source: URL classification, the request plans and
//! response handling for its endpoints, and the per-resource resolution flow.

use vstd::prelude::*;
use crate::codes::{DimensionCode, VideoTypeCode};
use crate::error::{ErrorModel, VideoSourceError};
use crate::numtext::{
    ascii_eq_ignore_case, eq_ignore_ascii_case, i32_to_string, parse_i32, spec_i32_string,
    spec_parse_i32, str_eq, str_starts_with, str_suffix_from,
};
use crate::envelope::{spec_envelope_error, wrap_response_not_null, Response};
use crate::source::{VideoInfo, VideoSource, VideoType};
use crate::transport::{
    http_request_outcome, query_view, spec_status_error_message, spec_status_ok, HttpMethod,
    HttpRequest,
};
use crate::urlparts::{
    lemma_first_unparsable, parse_url, parse_url_parts, spec_all_parse_ok, spec_first_unparsable,
    url_parse_ok, UrlParts,
};

verus! {

/// What a recognized URL names: a single video by its external id, or a
/// multi-episode series by its media id.
#[derive(Debug)]
pub enum UrlType {
    /// BV id of a single video.
    Video(String),
    /// Media id of a series.
    Bangumi(i32),
}

/// The mathematical shape of a classified URL.
pub enum UrlTypeModel {
    Video(Seq<char>),
    Bangumi(int),
}

impl View for UrlType {
    type V = UrlTypeModel;

    open spec fn view(&self) -> UrlTypeModel {
        match self {
            UrlType::Video(bvid) => UrlTypeModel::Video(bvid@),
            UrlType::Bangumi(id) => UrlTypeModel::Bangumi(*id as int),
        }
    }
}

impl PartialEq for UrlType {
    fn eq(&self, other: &Self) -> (r: bool) {
        match (self, other) {
            (UrlType::Video(a), UrlType::Video(b)) => str_eq(a.as_str(), b.as_str()),
            (UrlType::Bangumi(a), UrlType::Bangumi(b)) => a == b,
            _ => false,
        }
    }
}

impl vstd::std_specs::cmp::PartialEqSpecImpl for UrlType {
    open spec fn obeys_eq_spec() -> bool {
        true
    }

    open spec fn eq_spec(&self, other: &Self) -> bool {
        self@ == other@
    }
}

/// The hosts this source claims, compared ASCII-case-insensitively.
pub open spec fn spec_host_ok(host: Seq<char>) -> bool {
    ascii_eq_ignore_case(host, "www.bilibili.com"@) || ascii_eq_ignore_case(host, "bilibili.com"@)
}

/// How a URL classifies, over the host and path segments of its parse: a
/// `video/<token>` path with the `BV` prefix is a video; a
/// `bangumi/media/md<digits>` path is a series; everything else, including
/// `bangumi/play/...` links, is unrecognized.
pub open spec fn spec_url_type(
    host: Option<Seq<char>>,
    segments: Option<Seq<Seq<char>>>,
) -> Option<UrlTypeModel> {
    if host is None {
        None
    } else if !spec_host_ok(host.unwrap()) {
        None
    } else if segments is None {
        None
    } else {
        let segs = segments.unwrap();
        if segs.len() >= 1 && segs[0] == "video"@ {
            if segs.len() >= 2 && "BV"@.is_prefix_of(segs[1]) {
                Some(UrlTypeModel::Video(segs[1]))
            } else {
                None
            }
        } else if segs.len() >= 1 && segs[0] == "bangumi"@ {
            if segs.len() >= 2 && segs[1] == "media"@ {
                if segs.len() >= 3 && "md"@.is_prefix_of(segs[2]) {
                    match spec_parse_i32(segs[2].subrange(2, segs[2].len() as int)) {
                        Some(v) => Some(UrlTypeModel::Bangumi(v)),
                        None => None,
                    }
                } else {
                    None
                }
            } else {
                None
            }
        } else {
            None
        }
    }
}

/// The Bilibili source: holds the optional session credential; everything
/// else about it is stateless.
#[derive(Debug)]
pub struct BilibiliSource {
    cookie: Option<String>,
}

impl BilibiliSource {
    pub fn new() -> (r: Self)
        ensures
            r.spec_cookie() is None,
    {
        BilibiliSource { cookie: None }
    }

    /// The credential currently held, as the contracts see it.
    pub closed spec fn spec_cookie(&self) -> Option<Seq<char>> {
        self.cookie.deep_view()
    }

    /// Classify a URL into the resource it names, or nothing when this
    /// source does not recognize it.
    pub fn url_type(url: &UrlParts) -> (r: Option<UrlType>)
        ensures
            match r {
                Some(t) => spec_url_type(url.host_view(), url.segments_view()) == Some(t@),
                None => spec_url_type(url.host_view(), url.segments_view()) is None,
            },
    {
        let host = match &url.host {
            None => {
                return None;
            },
            Some(h) => h,
        };
        let host_ok = eq_ignore_ascii_case(host.as_str(), "www.bilibili.com")
            || eq_ignore_ascii_case(host.as_str(), "bilibili.com");
        if !host_ok {
            return None;
        }
        let segs = match &url.segments {
            None => {
                return None;
            },
            Some(s) => s,
        };
        if segs.len() >= 1 && str_eq(segs[0].as_str(), "video") {
            if segs.len() >= 2 && str_starts_with(segs[1].as_str(), "BV") {
                Some(UrlType::Video(segs[1].clone()))
            } else {
                None
            }
        } else if segs.len() >= 1 && str_eq(segs[0].as_str(), "bangumi") {
            if segs.len() >= 2 && str_eq(segs[1].as_str(), "media") {
                if segs.len() >= 3 && str_starts_with(segs[2].as_str(), "md") {
                    proof {
                        reveal_strlit("md");
                    }
                    let digits = str_suffix_from(segs[2].as_str(), 2);
                    match parse_i32(digits) {
                        Some(v) => Some(UrlType::Bangumi(v)),
                        None => None,
                    }
                } else {
                    None
                }
            } else {
                None
            }
        } else {
            None
        }
    }
}

impl Default for BilibiliSource {
    fn default() -> (r: Self)
        ensures
            r.spec_cookie() is None,
    {
        BilibiliSource::new()
    }
}

impl VideoSource for BilibiliSource {
    open spec fn recognizes(&self, url: &UrlParts) -> bool {
        spec_url_type(url.host_view(), url.segments_view()) is Some
    }

    open spec fn spec_token(&self) -> Option<Seq<char>> {
        self.spec_cookie()
    }

    open spec fn spec_pretty_name(&self) -> Seq<char> {
        "bilibili"@
    }

    fn pretty_name(&self) -> (r: &'static str)
        ensures
            r@ == self.spec_pretty_name(),
    {
        "bilibili"
    }

    fn valid(&self, url: &UrlParts) -> (r: bool)
        ensures
            r == self.recognizes(url),
    {
        Self::url_type(url).is_some()
    }

    fn set_token(&mut self, token: String)
        ensures
            final(self).spec_token() == Some(token@),
    {
        self.cookie = Some(token);
    }

    fn token(&self) -> (r: Option<&str>)
        ensures
            match r {
                Some(t) => self.spec_token() == Some(t@),
                None => self.spec_token() is None,
            },
    {
        match &self.cookie {
            Some(c) => Some(c.as_str()),
            None => None,
        }
    }
}

/// Law: on the platform host, a `video/<token>` path classifies as that
/// video exactly when the token carries the `BV` prefix.
pub proof fn lemma_classify_video(host: Seq<char>, segs: Seq<Seq<char>>)
    requires
        spec_host_ok(host),
        segs.len() == 2,
        segs[0] == "video"@,
    ensures
        "BV"@.is_prefix_of(segs[1]) ==> spec_url_type(Some(host), Some(segs)) == Some(
            UrlTypeModel::Video(segs[1]),
        ),
        !"BV"@.is_prefix_of(segs[1]) ==> spec_url_type(Some(host), Some(segs)) is None,
{
}

/// Law: on the platform host, a `bangumi/media/md<digits>` path classifies
/// as the series whose id those digits spell.
pub proof fn lemma_classify_series(host: Seq<char>, segs: Seq<Seq<char>>, id: int)
    requires
        spec_host_ok(host),
        segs.len() == 3,
        segs[0] == "bangumi"@,
        segs[1] == "media"@,
        "md"@.is_prefix_of(segs[2]),
        spec_parse_i32(segs[2].subrange(2, segs[2].len() as int)) == Some(id),
    ensures
        spec_url_type(Some(host), Some(segs)) == Some(UrlTypeModel::Bangumi(id)),
{
    reveal_strlit("video");
    reveal_strlit("bangumi");
    assert("video"@.len() == 5);
    assert("bangumi"@.len() == 7);
    assert(segs[0] != "video"@);
}

/// Law: a `bangumi/play/...` link is explicitly unsupported and does not
/// classify.
pub proof fn lemma_classify_play_link(host: Seq<char>, segs: Seq<Seq<char>>)
    requires
        spec_host_ok(host),
        segs.len() >= 2,
        segs[0] == "bangumi"@,
        segs[1] == "play"@,
    ensures
        spec_url_type(Some(host), Some(segs)) is None,
{
    reveal_strlit("video");
    reveal_strlit("bangumi");
    reveal_strlit("media");
    reveal_strlit("play");
    assert("video"@.len() == 5);
    assert("bangumi"@.len() == 7);
    assert("media"@.len() == 5);
    assert("play"@.len() == 4);
    assert(segs[0] != "video"@);
    assert(segs[1] != "media"@);
}

/// Law: a URL without the platform host never classifies.
pub proof fn lemma_classify_foreign_host(host: Seq<char>, segments: Option<Seq<Seq<char>>>)
    requires
        !spec_host_ok(host),
    ensures
        spec_url_type(Some(host), segments) is None,
{
}

pub const REQUEST_VIDEO_INFO_URL: &'static str = "https://api.bilibili.com/x/player/pagelist";

pub const REQUEST_VIDEO_URL: &'static str = "https://api.bilibili.com/x/player/playurl";

pub const REQUEST_SSID_BY_MDID_URL: &'static str = "https://api.bilibili.com/pgc/review/user";

pub const REQUEST_BANGUMI_INFO_URL: &'static str = "https://api.bilibili.com/pgc/view/web/season";

/// One part of a single video, as the part-list endpoint reports it.
#[derive(Debug)]
pub struct PInfo {
    pub cid: i32,
    /// Position of the part, counted from one.
    pub page: i32,
    /// Title of the part.
    pub part: String,
    /// Length in seconds.
    pub duration: i32,
}

/// The series lookup payload: the record that maps a media id to the
/// internal season id.
#[derive(Debug)]
pub struct BangumiInfo {
    pub media: MediaInfo,
}

#[derive(Debug)]
pub struct MediaInfo {
    pub cover: String,
    pub media_id: i32,
    pub season_id: i32,
    pub title: String,
}

/// The full episode list of a season.
#[derive(Debug)]
pub struct EpisodesInfo {
    pub episodes: Vec<Episode>,
    /// Description of the season; passed through, not required.
    pub evaluate: String,
    pub media_id: i32,
    pub season_id: i32,
    pub title: String,
}

/// One episode of a season.
#[derive(Debug)]
pub struct Episode {
    pub bvid: String,
    pub cid: i32,
    /// Cover image URL.
    pub cover: String,
    /// Episode id.
    pub id: i32,
    /// Long-form title.
    pub long_title: String,
    /// Short-form title.
    pub title: String,
}

/// The stream-address payload: exactly one of `durl` (segmented legacy
/// format) or `dash` (separate-track format) is populated on a usable
/// response.
#[derive(Debug)]
pub struct VideoUrlInfo {
    /// The resolution code actually served.
    pub quality: i32,
    /// The container format actually served.
    pub format: String,
    /// Length of the video in milliseconds.
    pub time_length: i32,
    /// The formats the video is available in.
    pub accept_format: String,
    /// The resolutions the video is available in, as labels.
    pub accept_description: Vec<String>,
    /// The resolutions the video is available in, as codes.
    pub accept_quality: Vec<i32>,
    /// Segmented single-track parts.
    pub durl: Option<Vec<Durl>>,
    /// Separate-track candidates.
    pub dash: Option<Dash>,
}

/// One segment of the legacy single-track format.
#[derive(Debug)]
pub struct Durl {
    /// Position of the segment, counted from one.
    pub order: i32,
    /// Length in milliseconds.
    pub length: i32,
    /// Size in bytes.
    pub size: i32,
    /// Stream URL.
    pub url: String,
    /// Alternate URLs for the same segment.
    pub backup_url: Vec<String>,
}

/// The separate-track format: parallel candidate lists for video and audio.
#[derive(Debug)]
pub struct Dash {
    pub duration: i32,
    pub video: Vec<DashItem>,
    pub audio: Vec<DashItem>,
}

/// One candidate track, tagged with the resolution code it was served at.
#[derive(Debug)]
pub struct DashItem {
    /// The resolution code of this candidate.
    pub id: i32,
    /// Stream URL.
    pub base_url: String,
    /// Alternate URLs for the same track.
    pub backup_url: Vec<String>,
}

/// One playable unit queued for stream resolution: where to fetch it and
/// how to present it.
#[derive(Debug, Clone)]
pub struct BilibiliSourceItem {
    pub bvid: String,
    pub cid: i32,
    pub pic: Option<String>,
    pub title: String,
    pub video_type: VideoType,
}

/// The parameters of one stream-address request.
#[derive(Debug)]
pub struct VideoUrlRequest {
    pub bvid: String,
    pub cid: i32,
    /// Requested resolution.
    pub qn: DimensionCode,
    /// Requested format.
    pub fnval: VideoTypeCode,
    /// Fixed at zero.
    pub fnver: i32,
    /// Whether 4K is allowed.
    pub fourk: i32,
}

impl VideoUrlRequest {
    /// The query parameters of the request, in the order they are sent.
    pub fn query_params(self) -> (q: Vec<(String, String)>)
        ensures
            query_view(q@) =~= seq![
                ("bvid"@, self.bvid@),
                ("cid"@, spec_i32_string(self.cid as int)),
                ("qn"@, spec_i32_string(self.qn.spec_code())),
                ("fnval"@, spec_i32_string(self.fnval.spec_code())),
                ("fnver"@, spec_i32_string(self.fnver as int)),
                ("fourk"@, spec_i32_string(self.fourk as int)),
            ],
    {
        let qn_code = i32::from(self.qn);
        let fnval_code = i32::from(self.fnval);
        let mut q: Vec<(String, String)> = Vec::new();
        q.push((String::from_str("bvid"), self.bvid));
        q.push((String::from_str("cid"), i32_to_string(self.cid)));
        q.push((String::from_str("qn"), i32_to_string(qn_code)));
        q.push((String::from_str("fnval"), i32_to_string(fnval_code)));
        q.push((String::from_str("fnver"), i32_to_string(self.fnver)));
        q.push((String::from_str("fourk"), i32_to_string(self.fourk)));
        q
    }
}

impl BilibiliSource {
    /// Decide the credential header for a call: a call that needs the
    /// credential fails with `NeedLogin` when none is set — before any
    /// network traffic; otherwise the header to attach, if any.
    pub fn wrap_cookie(&self, with_cookie: bool) -> (r: Result<Option<String>, VideoSourceError>)
        ensures
            !with_cookie ==> (r matches Ok(c) && c is None),
            with_cookie && self.spec_cookie() is Some ==> (r matches Ok(c) && c.deep_view()
                == self.spec_cookie()),
            with_cookie && self.spec_cookie() is None ==> (r matches Err(e) && e@ is NeedLogin),
    {
        if with_cookie {
            match &self.cookie {
                Some(cookie) => Ok(Some(cookie.clone())),
                None => Err(VideoSourceError::NeedLogin),
            }
        } else {
            Ok(None)
        }
    }

    /// The request that lists the parts of a video: a GET on the part-list
    /// endpoint keyed by the external id, with the credential attached when
    /// one is set.
    pub fn request_video_info_plan(&self, bvid: &str) -> (r: Result<HttpRequest, VideoSourceError>)
        ensures
            !url_parse_ok(REQUEST_VIDEO_INFO_URL@) ==> (r matches Err(e) && e@
                == ErrorModel::RequestError("无效的地址: "@ + REQUEST_VIDEO_INFO_URL@)),
            url_parse_ok(REQUEST_VIDEO_INFO_URL@) ==> (r matches Ok(req) && {
                &&& req.method is Get
                &&& req.url@ == REQUEST_VIDEO_INFO_URL@
                &&& req.spec_query() == seq![("bvid"@, bvid@)]
                &&& req.cookie.deep_view() == self.spec_cookie()
                &&& req.body is None
            }),
    {
        let url = match parse_url(REQUEST_VIDEO_INFO_URL) {
            Ok(u) => u,
            Err(e) => {
                return Err(e);
            },
        };
        let cookie = match self.wrap_cookie(self.cookie.is_some()) {
            Ok(c) => c,
            Err(e) => {
                return Err(e);
            },
        };
        let mut query: Vec<(String, String)> = Vec::new();
        query.push((String::from_str("bvid"), String::from_str(bvid)));
        let req = HttpRequest { method: HttpMethod::Get, url, query, cookie, body: None };
        assert(req.spec_query() =~= seq![("bvid"@, bvid@)]);
        Ok(req)
    }

    /// The request that translates a media id into a season id.
    pub fn request_bangumi_ssid_plan(&self, media_id: i32) -> (r: Result<
        HttpRequest,
        VideoSourceError,
    >)
        ensures
            !url_parse_ok(REQUEST_SSID_BY_MDID_URL@) ==> (r matches Err(e) && e@
                == ErrorModel::RequestError("无效的地址: "@ + REQUEST_SSID_BY_MDID_URL@)),
            url_parse_ok(REQUEST_SSID_BY_MDID_URL@) ==> (r matches Ok(req) && {
                &&& req.method is Get
                &&& req.url@ == REQUEST_SSID_BY_MDID_URL@
                &&& req.spec_query() == seq![("media_id"@, spec_i32_string(media_id as int))]
                &&& req.cookie.deep_view() == self.spec_cookie()
                &&& req.body is None
            }),
    {
        let url = match parse_url(REQUEST_SSID_BY_MDID_URL) {
            Ok(u) => u,
            Err(e) => {
                return Err(e);
            },
        };
        let cookie = match self.wrap_cookie(self.cookie.is_some()) {
            Ok(c) => c,
            Err(e) => {
                return Err(e);
            },
        };
        let mut query: Vec<(String, String)> = Vec::new();
        query.push((String::from_str("media_id"), i32_to_string(media_id)));
        let req = HttpRequest { method: HttpMethod::Get, url, query, cookie, body: None };
        assert(req.spec_query() =~= seq![("media_id"@, spec_i32_string(media_id as int))]);
        Ok(req)
    }

    /// The request that lists the episodes of a season.
    pub fn request_bangumi_info_plan(&self, ssid: i32) -> (r: Result<
        HttpRequest,
        VideoSourceError,
    >)
        ensures
            !url_parse_ok(REQUEST_BANGUMI_INFO_URL@) ==> (r matches Err(e) && e@
                == ErrorModel::RequestError("无效的地址: "@ + REQUEST_BANGUMI_INFO_URL@)),
            url_parse_ok(REQUEST_BANGUMI_INFO_URL@) ==> (r matches Ok(req) && {
                &&& req.method is Get
                &&& req.url@ == REQUEST_BANGUMI_INFO_URL@
                &&& req.spec_query() == seq![("season_id"@, spec_i32_string(ssid as int))]
                &&& req.cookie.deep_view() == self.spec_cookie()
                &&& req.body is None
            }),
    {
        let url = match parse_url(REQUEST_BANGUMI_INFO_URL) {
            Ok(u) => u,
            Err(e) => {
                return Err(e);
            },
        };
        let cookie = match self.wrap_cookie(self.cookie.is_some()) {
            Ok(c) => c,
            Err(e) => {
                return Err(e);
            },
        };
        let mut query: Vec<(String, String)> = Vec::new();
        query.push((String::from_str("season_id"), i32_to_string(ssid)));
        let req = HttpRequest { method: HttpMethod::Get, url, query, cookie, body: None };
        assert(req.spec_query() =~= seq![("season_id"@, spec_i32_string(ssid as int))]);
        Ok(req)
    }

    /// The request that resolves one episode's stream addresses. A tier
    /// that needs a credential fails with `NeedLogin` here, before any
    /// network call; anonymous tiers send no credential at all.
    pub fn request_video_url_plan(
        &self,
        bvid: &str,
        cid: i32,
        vide_type: VideoTypeCode,
        dimension: DimensionCode,
    ) -> (r: Result<HttpRequest, VideoSourceError>)
        ensures
            !url_parse_ok(REQUEST_VIDEO_URL@) ==> (r matches Err(e) && e@
                == ErrorModel::RequestError("无效的地址: "@ + REQUEST_VIDEO_URL@)),
            url_parse_ok(REQUEST_VIDEO_URL@) && dimension.spec_need_login() && self.spec_cookie()
                is None ==> (r matches Err(e) && e@ is NeedLogin),
            url_parse_ok(REQUEST_VIDEO_URL@) && (dimension.spec_need_login()
                ==> self.spec_cookie() is Some) ==> (r matches Ok(req) && {
                &&& req.method is Get
                &&& req.url@ == REQUEST_VIDEO_URL@
                &&& req.spec_query() == seq![
                    ("bvid"@, bvid@),
                    ("cid"@, spec_i32_string(cid as int)),
                    ("qn"@, spec_i32_string(dimension.spec_code())),
                    ("fnval"@, spec_i32_string(vide_type.spec_code())),
                    ("fnver"@, spec_i32_string(0)),
                    ("fourk"@, spec_i32_string(1)),
                ]
                &&& req.cookie.deep_view() == (if dimension.spec_need_login() {
                    self.spec_cookie()
                } else {
                    None::<Seq<char>>
                })
                &&& req.body is None
            }),
    {
        let query = VideoUrlRequest {
            bvid: String::from_str(bvid),
            cid,
            fnver: 0,
            fnval: vide_type,
            qn: dimension,
            fourk: 1,
        }.query_params();
        let url = match parse_url(REQUEST_VIDEO_URL) {
            Ok(u) => u,
            Err(e) => {
                return Err(e);
            },
        };
        let cookie = match self.wrap_cookie(dimension.need_login()) {
            Ok(c) => c,
            Err(e) => {
                return Err(e);
            },
        };
        Ok(HttpRequest { method: HttpMethod::Get, url, query, cookie, body: None })
    }

    /// The description of a POST carrying a JSON body, with the credential
    /// attached when the call demands it.
    pub fn request_post_plan(&self, url: &str, body: String, with_cookie: bool) -> (r: Result<
        HttpRequest,
        VideoSourceError,
    >)
        ensures
            !url_parse_ok(url@) ==> (r matches Err(e) && e@ == ErrorModel::RequestError(
                "无效的地址: "@ + url@,
            )),
            url_parse_ok(url@) && with_cookie && self.spec_cookie() is None ==> (r matches Err(e)
                && e@ is NeedLogin),
            url_parse_ok(url@) && (with_cookie ==> self.spec_cookie() is Some) ==> (r matches Ok(
                req,
            ) && {
                &&& req.method is Post
                &&& req.url@ == url@
                &&& req.spec_query() == Seq::<(Seq<char>, Seq<char>)>::empty()
                &&& req.cookie.deep_view() == (if with_cookie {
                    self.spec_cookie()
                } else {
                    None::<Seq<char>>
                })
                &&& req.body matches Some(b) && b@ == body@
            }),
    {
        let checked = match parse_url(url) {
            Ok(u) => u,
            Err(e) => {
                return Err(e);
            },
        };
        let cookie = match self.wrap_cookie(with_cookie) {
            Ok(c) => c,
            Err(e) => {
                return Err(e);
            },
        };
        let query: Vec<(String, String)> = Vec::new();
        let req = HttpRequest { method: HttpMethod::Post, url: checked, query, cookie, body: Some(body) };
        assert(req.spec_query() =~= Seq::<(Seq<char>, Seq<char>)>::empty());
        Ok(req)
    }
}

/// The cover URLs of a sequence of episodes, in order.
pub open spec fn covers_of(episodes: Seq<Episode>) -> Seq<Seq<char>> {
    Seq::new(episodes.len(), |i: int| episodes[i].cover@)
}

/// The segment URLs of a sequence of legacy parts, in order.
pub open spec fn durl_urls(flv: Seq<Durl>) -> Seq<Seq<char>> {
    Seq::new(flv.len(), |i: int| flv[i].url@)
}

/// The error reported for an episode whose cover URL does not parse.
pub open spec fn spec_cover_error(e: Episode) -> Seq<char> {
    "视频地址错误: bvid="@ + e.bvid@ + ",cid="@ + spec_i32_string(e.cid as int)
}

/// The queued item an episode becomes: its own cover, and the long-form
/// title followed by the short-form title.
pub open spec fn spec_bangumi_item(it: BilibiliSourceItem, e: Episode, vt: VideoType) -> bool {
    &&& it.bvid@ == e.bvid@
    &&& it.cid == e.cid
    &&& it.pic matches Some(p) && p@ == e.cover@
    &&& it.title@ == e.long_title@ + " "@ + e.title@
    &&& it.video_type == vt
}

/// The queued item a part of a single video becomes: no cover at this
/// tier, the part title as it came.
pub open spec fn spec_video_item(
    it: BilibiliSourceItem,
    bvid: Seq<char>,
    p: PInfo,
    vt: VideoType,
) -> bool {
    &&& it.bvid@ == bvid
    &&& it.cid == p.cid
    &&& it.pic is None
    &&& it.title@ == p.part@
    &&& it.video_type == vt
}

/// Turn the part list of a single video into queued items, preserving the
/// order the remote sent.
pub fn make_video_items(bvid: &str, videos: &Vec<PInfo>, video_type: VideoType) -> (items: Vec<
    BilibiliSourceItem,
>)
    ensures
        items@.len() == videos@.len(),
        forall|k: int| 0 <= k < videos@.len() ==> spec_video_item(
            #[trigger] items@[k],
            bvid@,
            videos@[k],
            video_type,
        ),
{
    let mut items: Vec<BilibiliSourceItem> = Vec::new();
    let n = videos.len();
    let mut k: usize = 0;
    while k < n
        invariant
            0 <= k <= n,
            n == videos@.len(),
            items@.len() == k,
            forall|j: int| 0 <= j < k ==> spec_video_item(
                #[trigger] items@[j],
                bvid@,
                videos@[j],
                video_type,
            ),
        decreases n - k,
    {
        let p = &videos[k];
        items.push(
            BilibiliSourceItem {
                bvid: String::from_str(bvid),
                cid: p.cid,
                pic: None,
                title: p.part.clone(),
                video_type,
            },
        );
        k = k + 1;
    }
    items
}

/// Turn the episode list of a season into queued items, preserving the
/// order the remote sent; an episode whose cover URL does not parse fails
/// the whole list, and the first such episode is reported.
pub fn make_bangumi_items(episodes: &Vec<Episode>, video_type: VideoType) -> (r: Result<
    Vec<BilibiliSourceItem>,
    VideoSourceError,
>)
    ensures
        spec_all_parse_ok(covers_of(episodes@)) ==> (r matches Ok(items) && items@.len()
            == episodes@.len() && forall|k: int|
            0 <= k < episodes@.len() ==> spec_bangumi_item(
                #[trigger] items@[k],
                episodes@[k],
                video_type,
            )),
        !spec_all_parse_ok(covers_of(episodes@)) ==> (r matches Err(e) && e@
            == ErrorModel::RequestError(
            spec_cover_error(episodes@[spec_first_unparsable(covers_of(episodes@))]),
        )),
{
    let mut items: Vec<BilibiliSourceItem> = Vec::new();
    let n = episodes.len();
    let mut k: usize = 0;
    while k < n
        invariant
            0 <= k <= n,
            n == episodes@.len(),
            items@.len() == k,
            forall|j: int| 0 <= j < k ==> url_parse_ok(#[trigger] covers_of(episodes@)[j]),
            forall|j: int| 0 <= j < k ==> spec_bangumi_item(
                #[trigger] items@[j],
                episodes@[j],
                video_type,
            ),
        decreases n - k,
    {
        let ep = &episodes[k];
        if parse_url_parts(ep.cover.as_str()).is_none() {
            proof {
                assert(!url_parse_ok(covers_of(episodes@)[k as int]));
                lemma_first_unparsable(covers_of(episodes@), k as int);
            }
            let message = String::from_str("视频地址错误: bvid=").concat(ep.bvid.as_str())
                .concat(",cid=").concat(i32_to_string(ep.cid).as_str());
            return Err(VideoSourceError::RequestError(message));
        }
        items.push(
            BilibiliSourceItem {
                bvid: ep.bvid.clone(),
                cid: ep.cid,
                pic: Some(ep.cover.clone()),
                title: ep.long_title.clone().concat(" ").concat(ep.title.as_str()),
                video_type,
            },
        );
        k = k + 1;
    }
    Ok(items)
}

/// The position of the first video candidate served at exactly the
/// requested resolution code, if any.
pub open spec fn spec_dash_pick(video: Seq<DashItem>, code: int) -> Option<int>
    decreases video.len(),
{
    if video.len() == 0 {
        None
    } else if video[0].id == code {
        Some(0int)
    } else {
        match spec_dash_pick(video.drop_first(), code) {
            Some(i) => Some(i + 1),
            None => None,
        }
    }
}

/// A position whose predecessors all miss the code and which hits it is
/// the pick.
proof fn lemma_dash_pick_hit(video: Seq<DashItem>, code: int, k: int)
    requires
        0 <= k < video.len(),
        video[k].id == code,
        forall|j: int| 0 <= j < k ==> (#[trigger] video[j].id) != code,
    ensures
        spec_dash_pick(video, code) == Some(k),
    decreases k,
{
    if k > 0 {
        let rest = video.drop_first();
        assert(forall|j: int| 0 <= j < k - 1 ==> (#[trigger] rest[j].id) != code);
        lemma_dash_pick_hit(rest, code, k - 1);
    }
}

/// When every candidate misses the code, nothing is picked.
proof fn lemma_dash_pick_miss(video: Seq<DashItem>, code: int)
    requires
        forall|j: int| 0 <= j < video.len() ==> (#[trigger] video[j].id) != code,
    ensures
        spec_dash_pick(video, code) is None,
    decreases video.len(),
{
    if video.len() > 0 {
        let rest = video.drop_first();
        assert(forall|j: int| 0 <= j < rest.len() ==> (#[trigger] rest[j].id) != code);
        lemma_dash_pick_miss(rest, code);
    }
}

/// Whether the payload's segmented shape is populated: a present,
/// non-empty list of parts.
pub open spec fn spec_has_segments(info: VideoUrlInfo) -> bool {
    info.durl matches Some(flv) && flv@.len() > 0
}

/// What extracting stream URLs from a stream-address payload yields.
///
/// A populated segmented list yields one video URL per segment and no
/// audio. Otherwise a separate-track shape yields the first video
/// candidate tagged with exactly the requested resolution code — no
/// candidate at that code is an unrecoverable not-found — and the first
/// audio candidate. A response with neither shape populated, an empty
/// segmented list included, is not-found. Any selected URL that does not
/// parse is a request error naming it.
pub open spec fn spec_stream_result(
    info: VideoUrlInfo,
    dimension: DimensionCode,
    bvid: Seq<char>,
) -> Result<(Seq<Seq<char>>, Seq<Seq<char>>), ErrorModel> {
    if spec_has_segments(info) {
        let flv = info.durl.unwrap();
        if spec_all_parse_ok(durl_urls(flv@)) {
            Ok((durl_urls(flv@), Seq::empty()))
        } else {
            Err(
                ErrorModel::RequestError(
                    "无效的地址: "@ + durl_urls(flv@)[spec_first_unparsable(durl_urls(flv@))],
                ),
            )
        }
    } else {
        match info.dash {
            Some(d) => match spec_dash_pick(d.video@, dimension.spec_code()) {
                None => Err(ErrorModel::NoSuchResource("bvid="@ + bvid)),
                Some(i) => if d.audio@.len() == 0 {
                    Err(ErrorModel::NoSuchResource("bvid="@ + bvid))
                } else {
                    let vurl = d.video@[i].base_url@;
                    let aurl = d.audio@[0].base_url@;
                    if !url_parse_ok(vurl) {
                        Err(ErrorModel::RequestError("无效的地址: "@ + vurl))
                    } else if !url_parse_ok(aurl) {
                        Err(ErrorModel::RequestError("无效的地址: "@ + aurl))
                    } else {
                        Ok((seq![vurl], seq![aurl]))
                    }
                },
            },
            None => Err(ErrorModel::NoSuchResource("bvid="@ + bvid)),
        }
    }
}

/// Law: a stream-address response with a populated segmented list yields
/// exactly one video URL per segment — at least one — and no audio URLs.
pub proof fn lemma_segmented_counts(info: VideoUrlInfo, dimension: DimensionCode, bvid: Seq<char>)
    requires
        spec_has_segments(info),
        spec_all_parse_ok(durl_urls(info.durl.unwrap()@)),
    ensures
        spec_stream_result(info, dimension, bvid) matches Ok(urls) && urls.0.len()
            == info.durl.unwrap()@.len() && urls.0.len() >= 1 && urls.1.len() == 0,
{
}

/// Law: a separate-track response with no video candidate tagged with the
/// requested resolution code is an unrecoverable not-found for the episode.
pub proof fn lemma_no_candidate_at_code(info: VideoUrlInfo, dimension: DimensionCode, bvid: Seq<char>)
    requires
        !spec_has_segments(info),
        info.dash is Some,
        forall|j: int|
            0 <= j < info.dash.unwrap().video@.len() ==> (#[trigger] info.dash.unwrap().video@[j].id)
                != dimension.spec_code(),
    ensures
        spec_stream_result(info, dimension, bvid) == Result::<
            (Seq<Seq<char>>, Seq<Seq<char>>),
            ErrorModel,
        >::Err(ErrorModel::NoSuchResource("bvid="@ + bvid)),
{
    lemma_dash_pick_miss(info.dash.unwrap().video@, dimension.spec_code());
}

/// Extract the concrete stream URLs from a stream-address payload, exactly
/// as `spec_stream_result` lays it down.
pub fn process_video_url(info: VideoUrlInfo, dimension: DimensionCode, bvid: &str) -> (r: Result<
    (Vec<String>, Vec<String>),
    VideoSourceError,
>)
    ensures
        match spec_stream_result(info, dimension, bvid@) {
            Ok(urls) => r matches Ok(out) && out.0.deep_view() == urls.0 && out.1.deep_view()
                == urls.1,
            Err(em) => r matches Err(e) && e@ == em,
        },
{
    if let Some(flv) = info.durl {
        if flv.len() > 0 {
            let mut videos: Vec<String> = Vec::new();
            let n = flv.len();
            let mut k: usize = 0;
            while k < n
                invariant
                    info.durl == Some(flv),
                    flv@.len() > 0,
                    0 <= k <= n,
                    n == flv@.len(),
                    videos@.len() == k,
                    forall|j: int| 0 <= j < k ==> url_parse_ok(#[trigger] durl_urls(flv@)[j]),
                    forall|j: int| 0 <= j < k ==> (#[trigger] videos@[j])@ == flv@[j].url@,
                decreases n - k,
            {
                match parse_url(flv[k].url.as_str()) {
                    Ok(u) => {
                        videos.push(u);
                    },
                    Err(e) => {
                        proof {
                            assert(!url_parse_ok(durl_urls(flv@)[k as int]));
                            lemma_first_unparsable(durl_urls(flv@), k as int);
                        }
                        return Err(e);
                    },
                }
                k = k + 1;
            }
            proof {
                assert(videos.deep_view() =~= durl_urls(flv@));
            }
            return Ok((videos, Vec::new()));
        }
        // an empty segmented list is not a populated shape; fall through
        proof {
            assert(!spec_has_segments(info));
        }
    }
    proof {
        assert(!spec_has_segments(info));
    }
    if let Some(dash) = info.dash {
        let code = i32::from(dimension);
        let n = dash.video.len();
        let mut k: usize = 0;
        let mut found: Option<usize> = None;
        while k < n && found.is_none()
            invariant
                0 <= k <= n,
                n == dash.video@.len(),
                code == dimension.spec_code(),
                found matches Some(i) ==> 0 <= i < n && dash.video@[i as int].id == code
                    && forall|j: int| 0 <= j < i ==> (#[trigger] dash.video@[j].id) != code,
                found is None ==> forall|j: int|
                    0 <= j < k ==> (#[trigger] dash.video@[j].id) != code,
            decreases n - k, (if found is None { 1int } else { 0int }),
        {
            if dash.video[k].id == code {
                found = Some(k);
            } else {
                k = k + 1;
            }
        }
        proof {
            match found {
                Some(i) => {
                    lemma_dash_pick_hit(dash.video@, code as int, i as int);
                },
                None => {
                    lemma_dash_pick_miss(dash.video@, code as int);
                },
            }
        }
        let i = match found {
            Some(i) => i,
            None => {
                return Err(
                    VideoSourceError::NoSuchResource(String::from_str("bvid=").concat(bvid)),
                );
            },
        };
        if dash.audio.len() == 0 {
            return Err(VideoSourceError::NoSuchResource(String::from_str("bvid=").concat(bvid)));
        }
        let video_url = match parse_url(dash.video[i].base_url.as_str()) {
            Ok(u) => u,
            Err(e) => {
                return Err(e);
            },
        };
        let audio_url = match parse_url(dash.audio[0].base_url.as_str()) {
            Ok(u) => u,
            Err(e) => {
                return Err(e);
            },
        };
        let mut videos: Vec<String> = Vec::new();
        videos.push(video_url);
        let mut audios: Vec<String> = Vec::new();
        audios.push(audio_url);
        proof {
            assert(videos.deep_view() =~= seq![dash.video@[i as int].base_url@]);
            assert(audios.deep_view() =~= seq![dash.audio@[0].base_url@]);
        }
        return Ok((videos, audios));
    }
    Err(VideoSourceError::NoSuchResource(String::from_str("bvid=").concat(bvid)))
}

/// The payload one response carries; the flow expects one kind per stage.
#[derive(Debug)]
pub enum ApiPayload {
    /// The part list of a single video.
    Parts(Vec<PInfo>),
    /// The media-id → season-id lookup record.
    Bangumi(BangumiInfo),
    /// The episode list of a season.
    Episodes(EpisodesInfo),
    /// The stream addresses of one item.
    Streams(VideoUrlInfo),
}

/// The stage a resolution flow is in: which call is outstanding, or that
/// the flow is drained.
#[derive(Debug)]
pub enum FlowStage {
    /// Waiting for the media-id → season-id lookup.
    FetchSsid { media_id: i32 },
    /// Waiting for the episode list of the season.
    FetchEpisodes { ssid: i32 },
    /// Waiting for the part list of the single video.
    FetchParts { bvid: String },
    /// Waiting for the stream addresses of the next queued item.
    FetchStream,
    /// Drained, or aborted by a failure.
    Finished,
}

/// One resolution flow: the sequence of dependent calls that turns a
/// classified resource into resolved media, one episode at a time.
///
/// The flow is pull-based: no request is handed out — and so no network
/// call is made — until the consumer asks for the next one, so stopping
/// early costs nothing. A failure at any stage aborts the remainder.
#[derive(Debug)]
pub struct VideoListFlow {
    /// The container preference of the request.
    pub video_type: VideoType,
    /// The resolution tier of the request.
    pub dimension: DimensionCode,
    /// Where the flow stands.
    pub stage: FlowStage,
    /// The queued items, once the listing call has answered.
    pub items: Vec<BilibiliSourceItem>,
    /// The next queued item to resolve.
    pub next: usize,
}

/// Whether a payload is the kind the flow's stage is waiting for.
pub open spec fn spec_payload_matches(stage: FlowStage, data: Option<ApiPayload>) -> bool {
    match data {
        None => true,
        Some(p) => match stage {
            FlowStage::FetchSsid { .. } => p is Bangumi,
            FlowStage::FetchEpisodes { .. } => p is Episodes,
            FlowStage::FetchParts { .. } => p is Parts,
            FlowStage::FetchStream => p is Streams,
            FlowStage::Finished => true,
        },
    }
}

impl VideoListFlow {
    /// While streaming, there is a next item to resolve.
    pub open spec fn wf(&self) -> bool {
        self.stage is FetchStream ==> self.next < self.items@.len()
    }

    /// The call to make now, or nothing when the flow is drained. The
    /// credential is read from the source at call time. A stream request
    /// at a credential-gated tier fails here — with no request handed out —
    /// when the source holds no credential.
    pub fn next_request(&self, source: &BilibiliSource) -> (r: Result<
        Option<HttpRequest>,
        VideoSourceError,
    >)
        requires
            self.wf(),
        ensures
            self.stage is Finished ==> (r matches Ok(req) && req is None),
            self.stage matches FlowStage::FetchSsid { media_id } ==> {
                &&& !url_parse_ok(REQUEST_SSID_BY_MDID_URL@) ==> (r matches Err(e) && e@
                    == ErrorModel::RequestError("无效的地址: "@ + REQUEST_SSID_BY_MDID_URL@))
                &&& url_parse_ok(REQUEST_SSID_BY_MDID_URL@) ==> (r matches Ok(o) && o matches Some(
                    req,
                ) && {
                    &&& req.method is Get
                    &&& req.url@ == REQUEST_SSID_BY_MDID_URL@
                    &&& req.spec_query() == seq![("media_id"@, spec_i32_string(media_id as int))]
                    &&& req.cookie.deep_view() == source.spec_cookie()
                    &&& req.body is None
                })
            },
            self.stage matches FlowStage::FetchEpisodes { ssid } ==> {
                &&& !url_parse_ok(REQUEST_BANGUMI_INFO_URL@) ==> (r matches Err(e) && e@
                    == ErrorModel::RequestError("无效的地址: "@ + REQUEST_BANGUMI_INFO_URL@))
                &&& url_parse_ok(REQUEST_BANGUMI_INFO_URL@) ==> (r matches Ok(o) && o matches Some(
                    req,
                ) && {
                    &&& req.method is Get
                    &&& req.url@ == REQUEST_BANGUMI_INFO_URL@
                    &&& req.spec_query() == seq![("season_id"@, spec_i32_string(ssid as int))]
                    &&& req.cookie.deep_view() == source.spec_cookie()
                    &&& req.body is None
                })
            },
            self.stage matches FlowStage::FetchParts { bvid } ==> {
                &&& !url_parse_ok(REQUEST_VIDEO_INFO_URL@) ==> (r matches Err(e) && e@
                    == ErrorModel::RequestError("无效的地址: "@ + REQUEST_VIDEO_INFO_URL@))
                &&& url_parse_ok(REQUEST_VIDEO_INFO_URL@) ==> (r matches Ok(o) && o matches Some(
                    req,
                ) && {
                    &&& req.method is Get
                    &&& req.url@ == REQUEST_VIDEO_INFO_URL@
                    &&& req.spec_query() == seq![("bvid"@, bvid@)]
                    &&& req.cookie.deep_view() == source.spec_cookie()
                    &&& req.body is None
                })
            },
            self.stage is FetchStream ==> {
                let it = self.items@[self.next as int];
                &&& !url_parse_ok(REQUEST_VIDEO_URL@) ==> (r matches Err(e) && e@
                    == ErrorModel::RequestError("无效的地址: "@ + REQUEST_VIDEO_URL@))
                &&& url_parse_ok(REQUEST_VIDEO_URL@) && self.dimension.spec_need_login()
                    && source.spec_cookie() is None ==> (r matches Err(e) && e@ is NeedLogin)
                &&& url_parse_ok(REQUEST_VIDEO_URL@) && (self.dimension.spec_need_login()
                    ==> source.spec_cookie() is Some) ==> (r matches Ok(o) && o matches Some(req)
                    && {
                    &&& req.method is Get
                    &&& req.url@ == REQUEST_VIDEO_URL@
                    &&& req.spec_query() == seq![
                        ("bvid"@, it.bvid@),
                        ("cid"@, spec_i32_string(it.cid as int)),
                        ("qn"@, spec_i32_string(self.dimension.spec_code())),
                        ("fnval"@, spec_i32_string(VideoTypeCode::spec_of(self.video_type).spec_code())),
                        ("fnver"@, spec_i32_string(0)),
                        ("fourk"@, spec_i32_string(1)),
                    ]
                    &&& req.cookie.deep_view() == (if self.dimension.spec_need_login() {
                        source.spec_cookie()
                    } else {
                        None::<Seq<char>>
                    })
                    &&& req.body is None
                })
            },
    {
        match &self.stage {
            FlowStage::Finished => Ok(None),
            FlowStage::FetchSsid { media_id } => match source.request_bangumi_ssid_plan(
                *media_id,
            ) {
                Ok(req) => Ok(Some(req)),
                Err(e) => Err(e),
            },
            FlowStage::FetchEpisodes { ssid } => match source.request_bangumi_info_plan(*ssid) {
                Ok(req) => Ok(Some(req)),
                Err(e) => Err(e),
            },
            FlowStage::FetchParts { bvid } => match source.request_video_info_plan(bvid.as_str()) {
                Ok(req) => Ok(Some(req)),
                Err(e) => Err(e),
            },
            FlowStage::FetchStream => {
                let it = &self.items[self.next];
                match source.request_video_url_plan(
                    it.bvid.as_str(),
                    it.cid,
                    VideoTypeCode::from(self.video_type),
                    self.dimension,
                ) {
                    Ok(req) => Ok(Some(req)),
                    Err(e) => Err(e),
                }
            },
        }
    }

    /// Feed the flow the outcome of the outstanding call and advance it.
    ///
    /// A non-success status, a failing envelope, a malformed episode list
    /// or an unusable stream payload each abort the flow with the matching
    /// error. A successful listing queues the items in remote order; a
    /// successful stream resolution emits the next item's resolved media,
    /// in queue order, one per call.
    pub fn on_response(&mut self, status: u16, env: Option<Response<ApiPayload>>, url: &str) -> (r:
        Result<Option<VideoInfo>, VideoSourceError>)
        requires
            old(self).wf(),
            !(old(self).stage is Finished),
            spec_status_ok(status) ==> env is Some,
            spec_status_ok(status) ==> spec_payload_matches(old(self).stage, env.unwrap().data),
        ensures
            final(self).wf(),
            final(self).video_type == old(self).video_type,
            final(self).dimension == old(self).dimension,
            r is Err ==> final(self).stage is Finished,
            !spec_status_ok(status) ==> (r matches Err(e) && e@ == ErrorModel::RequestError(
                spec_status_error_message(status),
            )),
            spec_status_ok(status) ==> {
                let en = env.unwrap();
                &&& !(en.code == 0 && en.data is Some) ==> (r matches Err(e) && e@
                    == spec_envelope_error(en, url@))
                &&& en.data matches Some(p) ==> en.code == 0 ==> {
                    &&& old(self).stage matches FlowStage::FetchSsid { media_id } ==> {
                        &&& p matches ApiPayload::Bangumi(b) ==> {
                            &&& r matches Ok(o) && o is None
                            &&& final(self).stage matches FlowStage::FetchEpisodes { ssid }
                                && ssid == b.media.season_id
                        }
                    }
                    &&& old(self).stage matches FlowStage::FetchEpisodes { ssid } ==> {
                        &&& p matches ApiPayload::Episodes(ei) ==> {
                            &&& !spec_all_parse_ok(covers_of(ei.episodes@)) ==> (r matches Err(e)
                                && e@ == ErrorModel::RequestError(
                                spec_cover_error(
                                    ei.episodes@[spec_first_unparsable(covers_of(ei.episodes@))],
                                ),
                            ))
                            &&& spec_all_parse_ok(covers_of(ei.episodes@)) ==> (r matches Ok(o)
                                && o is None && {
                                &&& ei.episodes@.len() == 0 ==> final(self).stage is Finished
                                &&& ei.episodes@.len() > 0 ==> {
                                    &&& final(self).stage is FetchStream
                                    &&& final(self).next == 0
                                    &&& final(self).items@.len() == ei.episodes@.len()
                                    &&& forall|k: int|
                                        0 <= k < ei.episodes@.len() ==> spec_bangumi_item(
                                            #[trigger] final(self).items@[k],
                                            ei.episodes@[k],
                                            old(self).video_type,
                                        )
                                }
                            })
                        }
                    }
                    &&& old(self).stage matches FlowStage::FetchParts { bvid } ==> {
                        &&& p matches ApiPayload::Parts(videos) ==> (r matches Ok(o) && o is None
                            && {
                            &&& videos@.len() == 0 ==> final(self).stage is Finished
                            &&& videos@.len() > 0 ==> {
                                &&& final(self).stage is FetchStream
                                &&& final(self).next == 0
                                &&& final(self).items@.len() == videos@.len()
                                &&& forall|k: int|
                                    0 <= k < videos@.len() ==> spec_video_item(
                                        #[trigger] final(self).items@[k],
                                        bvid@,
                                        videos@[k],
                                        old(self).video_type,
                                    )
                            }
                        })
                    }
                    &&& old(self).stage is FetchStream ==> {
                        &&& p matches ApiPayload::Streams(inf) ==> {
                            let it = old(self).items@[old(self).next as int];
                            match spec_stream_result(inf, old(self).dimension, it.bvid@) {
                                Err(em) => r matches Err(e) && e@ == em,
                                Ok(urls) => r matches Ok(o) && o matches Some(vi) && {
                                    &&& vi.pic.deep_view() == it.pic.deep_view()
                                    &&& vi.title@ == it.title@
                                    &&& vi.video_type == old(self).video_type
                                    &&& vi.dimension == old(self).dimension.spec_code()
                                    &&& vi.video.deep_view() == urls.0
                                    &&& vi.audio.deep_view() == urls.1
                                    &&& final(self).items == old(self).items
                                    &&& old(self).next + 1 < old(self).items@.len()
                                        ==> final(self).stage is FetchStream && final(self).next
                                        == old(self).next + 1
                                    &&& old(self).next + 1 == old(self).items@.len()
                                        ==> final(self).stage is Finished
                                },
                            }
                        }
                    }
                }
            },
    {
        match http_request_outcome(status) {
            Err(e) => {
                self.stage = FlowStage::Finished;
                return Err(e);
            },
            Ok(_) => {},
        }
        // a successful status always comes with a parsed envelope, and the
        // payload kind is tied to the stage: both are preconditions, so the
        // mismatch arms below are unreachable
        let en = match env {
            Some(en) => en,
            None => {
                return unreached();
            },
        };
        let data = match wrap_response_not_null(en, url) {
            Ok(d) => d,
            Err(e) => {
                self.stage = FlowStage::Finished;
                return Err(e);
            },
        };
        match data {
            ApiPayload::Bangumi(b) => {
                match &self.stage {
                    FlowStage::FetchSsid { .. } => {},
                    _ => {
                        return unreached();
                    },
                }
                self.stage = FlowStage::FetchEpisodes { ssid: b.media.season_id };
                Ok(None)
            },
            ApiPayload::Episodes(ei) => {
                match &self.stage {
                    FlowStage::FetchEpisodes { .. } => {},
                    _ => {
                        return unreached();
                    },
                }
                let items = match make_bangumi_items(&ei.episodes, self.video_type) {
                    Ok(items) => items,
                    Err(e) => {
                        self.stage = FlowStage::Finished;
                        return Err(e);
                    },
                };
                if items.len() == 0 {
                    self.stage = FlowStage::Finished;
                } else {
                    self.items = items;
                    self.next = 0;
                    self.stage = FlowStage::FetchStream;
                }
                Ok(None)
            },
            ApiPayload::Parts(videos) => {
                let bvid = match &self.stage {
                    FlowStage::FetchParts { bvid } => bvid.clone(),
                    _ => {
                        return unreached();
                    },
                };
                let items = make_video_items(bvid.as_str(), &videos, self.video_type);
                if items.len() == 0 {
                    self.stage = FlowStage::Finished;
                } else {
                    self.items = items;
                    self.next = 0;
                    self.stage = FlowStage::FetchStream;
                }
                Ok(None)
            },
            ApiPayload::Streams(inf) => {
                match &self.stage {
                    FlowStage::FetchStream => {},
                    _ => {
                        return unreached();
                    },
                }
                let it = &self.items[self.next];
                let urls = match process_video_url(inf, self.dimension, it.bvid.as_str()) {
                    Ok(urls) => urls,
                    Err(e) => {
                        self.stage = FlowStage::Finished;
                        return Err(e);
                    },
                };
                let (videos, audios) = urls;
                let info = VideoInfo {
                    pic: match &it.pic {
                        Some(p) => Some(p.clone()),
                        None => None,
                    },
                    title: it.title.clone(),
                    video_type: self.video_type,
                    dimension: i32::from(self.dimension),
                    video: videos,
                    audio: audios,
                };
                let n = self.items.len();
                if self.next + 1 < n {
                    self.next = self.next + 1;
                } else {
                    self.stage = FlowStage::Finished;
                }
                Ok(Some(info))
            },
        }
    }
}

/// The tier listed at each position of the capability table.
pub open spec fn spec_dimension_order(k: int) -> DimensionCode {
    if k == 0 {
        DimensionCode::P240
    } else if k == 1 {
        DimensionCode::P360
    } else if k == 2 {
        DimensionCode::P480
    } else if k == 3 {
        DimensionCode::P720
    } else if k == 4 {
        DimensionCode::P720F60
    } else if k == 5 {
        DimensionCode::P1080
    } else if k == 6 {
        DimensionCode::P1080P
    } else if k == 7 {
        DimensionCode::P1080F60
    } else {
        DimensionCode::P4K
    }
}

/// Law: mapping any requested code to a tier and looking it up in the
/// capability table round-trips: every tier the mapping can produce stands
/// in the table with a non-empty label, and the table ascends strictly in
/// quality.
pub proof fn lemma_dimension_round_trip(code: i32)
    ensures
        forall|k: int|
            0 <= k < 9 ==> (#[trigger] spec_dimension_order(k).spec_label()).len() > 0,
        forall|j: int, k: int|
            0 <= j < k < 9 ==> spec_dimension_order(j).spec_rank() < spec_dimension_order(
                k,
            ).spec_rank(),
        exists|k: int|
            0 <= k < 9 && #[trigger] spec_dimension_order(k) == DimensionCode::spec_from_code(
                code as int,
            ),
{
    reveal_strlit("240P 极速");
    reveal_strlit("360P 流畅");
    reveal_strlit("480P 清晰");
    reveal_strlit("720P 高清（登录）");
    reveal_strlit("720P60 高清（大会员）");
    reveal_strlit("1080P 高清（登录）");
    reveal_strlit("1080P+ 高清（大会员）");
    reveal_strlit("1080P60 高清（大会员）");
    reveal_strlit("4K 超清（大会员）");
    let d = DimensionCode::spec_from_code(code as int);
    if d == DimensionCode::P240 {
        assert(spec_dimension_order(0) == d);
    } else if d == DimensionCode::P360 {
        assert(spec_dimension_order(1) == d);
    } else if d == DimensionCode::P480 {
        assert(spec_dimension_order(2) == d);
    } else if d == DimensionCode::P720 {
        assert(spec_dimension_order(3) == d);
    } else if d == DimensionCode::P720F60 {
        assert(spec_dimension_order(4) == d);
    } else if d == DimensionCode::P1080 {
        assert(spec_dimension_order(5) == d);
    } else if d == DimensionCode::P1080P {
        assert(spec_dimension_order(6) == d);
    } else if d == DimensionCode::P1080F60 {
        assert(spec_dimension_order(7) == d);
    } else {
        assert(spec_dimension_order(8) == d);
    }
}

impl BilibiliSource {
    /// The resolution tiers this source supports, each with its numeric
    /// code and its human-readable label, lowest quality first.
    pub fn dimension(&self) -> (r: Vec<(i32, String)>)
        ensures
            r@.len() == 9,
            forall|k: int|
                0 <= k < 9 ==> (#[trigger] r@[k]).0 == spec_dimension_order(k).spec_code()
                    && r@[k].1@ == spec_dimension_order(k).spec_label(),
    {
        let mut r: Vec<(i32, String)> = Vec::new();
        r.push((i32::from(DimensionCode::P240), DimensionCode::P240.label()));
        r.push((i32::from(DimensionCode::P360), DimensionCode::P360.label()));
        r.push((i32::from(DimensionCode::P480), DimensionCode::P480.label()));
        r.push((i32::from(DimensionCode::P720), DimensionCode::P720.label()));
        r.push((i32::from(DimensionCode::P720F60), DimensionCode::P720F60.label()));
        r.push((i32::from(DimensionCode::P1080), DimensionCode::P1080.label()));
        r.push((i32::from(DimensionCode::P1080P), DimensionCode::P1080P.label()));
        r.push((i32::from(DimensionCode::P1080F60), DimensionCode::P1080F60.label()));
        r.push((i32::from(DimensionCode::P4K), DimensionCode::P4K.label()));
        r
    }
}

impl BilibiliSource {
    /// Start resolving a URL at a container preference and resolution tier.
    ///
    /// A URL this source does not recognize fails with `InvalidUrl` at
    /// once, before any network call; otherwise the flow starts at the
    /// listing call the resource's kind demands.
    pub fn video_list(&self, url: &UrlParts, video_type: VideoType, dimension: i32) -> (r: Result<
        VideoListFlow,
        VideoSourceError,
    >)
        ensures
            spec_url_type(url.host_view(), url.segments_view()) is None ==> (r matches Err(e)
                && e@ == ErrorModel::InvalidUrl(url.raw@)),
            spec_url_type(url.host_view(), url.segments_view()) matches Some(t) ==> (r matches Ok(
                flow,
            ) && {
                &&& flow.wf()
                &&& flow.video_type == video_type
                &&& flow.dimension == DimensionCode::spec_from_code(dimension as int)
                &&& flow.items@.len() == 0
                &&& flow.next == 0
                &&& match t {
                    UrlTypeModel::Video(b) => flow.stage matches FlowStage::FetchParts { bvid }
                        && bvid@ == b,
                    UrlTypeModel::Bangumi(m) => flow.stage matches FlowStage::FetchSsid {
                        media_id,
                    } && media_id == m,
                }
            }),
    {
        match Self::url_type(url) {
            None => Err(VideoSourceError::InvalidUrl(url.raw.clone())),
            Some(UrlType::Video(bvid)) => Ok(
                VideoListFlow {
                    video_type,
                    dimension: DimensionCode::from(dimension),
                    stage: FlowStage::FetchParts { bvid },
                    items: Vec::new(),
                    next: 0,
                },
            ),
            Some(UrlType::Bangumi(media_id)) => Ok(
                VideoListFlow {
                    video_type,
                    dimension: DimensionCode::from(dimension),
                    stage: FlowStage::FetchSsid { media_id },
                    items: Vec::new(),
                    next: 0,
                },
            ),
        }
    }
}

} // verus!

//! The platform's resolution and format codes, and the access-control policy
//! tied to them: which resolution tiers require a credential.

use vstd::prelude::*;
use crate::source::VideoType;

verus! {

/// The resolution tiers the platform serves, lowest to highest.
#[derive(Debug, Eq, PartialEq, Clone, Copy, Structural)]
pub enum DimensionCode {
    P240,
    P360,
    P480,
    P720,
    P720F60,
    P1080,
    P1080P,
    P1080F60,
    P4K,
}

impl DimensionCode {
    /// The numeric code the platform uses for the tier.
    pub open spec fn spec_code(self) -> int {
        match self {
            DimensionCode::P240 => 6,
            DimensionCode::P360 => 16,
            DimensionCode::P480 => 32,
            DimensionCode::P720 => 64,
            DimensionCode::P720F60 => 74,
            DimensionCode::P1080 => 80,
            DimensionCode::P1080P => 112,
            DimensionCode::P1080F60 => 116,
            DimensionCode::P4K => 120,
        }
    }

    /// The tier a numeric code stands for; unknown codes fall back to P720.
    pub open spec fn spec_from_code(c: int) -> DimensionCode {
        if c == 6 {
            DimensionCode::P240
        } else if c == 16 {
            DimensionCode::P360
        } else if c == 32 {
            DimensionCode::P480
        } else if c == 64 {
            DimensionCode::P720
        } else if c == 74 {
            DimensionCode::P720F60
        } else if c == 80 {
            DimensionCode::P1080
        } else if c == 112 {
            DimensionCode::P1080P
        } else if c == 116 {
            DimensionCode::P1080F60
        } else if c == 120 {
            DimensionCode::P4K
        } else {
            DimensionCode::P720
        }
    }

    /// The tier's position in the quality order, lowest first.
    pub open spec fn spec_rank(self) -> int {
        match self {
            DimensionCode::P240 => 0,
            DimensionCode::P360 => 1,
            DimensionCode::P480 => 2,
            DimensionCode::P720 => 3,
            DimensionCode::P720F60 => 4,
            DimensionCode::P1080 => 5,
            DimensionCode::P1080P => 6,
            DimensionCode::P1080F60 => 7,
            DimensionCode::P4K => 8,
        }
    }

    /// Whether resolving at this tier requires a credential.
    pub open spec fn spec_need_login(self) -> bool {
        !(self is P240 || self is P360 || self is P480)
    }

    /// A tier at or above 720P can only be requested with a credential;
    /// the three lowest tiers are anonymous.
    pub fn need_login(&self) -> (r: bool)
        ensures
            r == self.spec_need_login(),
    {
        !(matches!(self, DimensionCode::P240 | DimensionCode::P360 | DimensionCode::P480))
    }

    /// The human-readable label of the tier.
    pub open spec fn spec_label(self) -> Seq<char> {
        match self {
            DimensionCode::P240 => "240P 极速"@,
            DimensionCode::P360 => "360P 流畅"@,
            DimensionCode::P480 => "480P 清晰"@,
            DimensionCode::P720 => "720P 高清（登录）"@,
            DimensionCode::P720F60 => "720P60 高清（大会员）"@,
            DimensionCode::P1080 => "1080P 高清（登录）"@,
            DimensionCode::P1080P => "1080P+ 高清（大会员）"@,
            DimensionCode::P1080F60 => "1080P60 高清（大会员）"@,
            DimensionCode::P4K => "4K 超清（大会员）"@,
        }
    }

    pub fn label(&self) -> (r: String)
        ensures
            r@ == self.spec_label(),
    {
        match self {
            DimensionCode::P240 => String::from_str("240P 极速"),
            DimensionCode::P360 => String::from_str("360P 流畅"),
            DimensionCode::P480 => String::from_str("480P 清晰"),
            DimensionCode::P720 => String::from_str("720P 高清（登录）"),
            DimensionCode::P720F60 => String::from_str("720P60 高清（大会员）"),
            DimensionCode::P1080 => String::from_str("1080P 高清（登录）"),
            DimensionCode::P1080P => String::from_str("1080P+ 高清（大会员）"),
            DimensionCode::P1080F60 => String::from_str("1080P60 高清（大会员）"),
            DimensionCode::P4K => String::from_str("4K 超清（大会员）"),
        }
    }
}

impl From<i32> for DimensionCode {
    fn from(dimension: i32) -> Self {
        match dimension {
            6 => Self::P240,
            16 => Self::P360,
            32 => Self::P480,
            64 => Self::P720,
            74 => Self::P720F60,
            80 => Self::P1080,
            112 => Self::P1080P,
            116 => Self::P1080F60,
            120 => Self::P4K,
            _ => Self::P720,
        }
    }
}

impl vstd::std_specs::convert::FromSpecImpl<i32> for DimensionCode {
    open spec fn obeys_from_spec() -> bool {
        true
    }

    open spec fn from_spec(v: i32) -> Self {
        DimensionCode::spec_from_code(v as int)
    }
}

impl From<DimensionCode> for i32 {
    fn from(dimension: DimensionCode) -> Self {
        match dimension {
            DimensionCode::P240 => 6,
            DimensionCode::P360 => 16,
            DimensionCode::P480 => 32,
            DimensionCode::P720 => 64,
            DimensionCode::P720F60 => 74,
            DimensionCode::P1080 => 80,
            DimensionCode::P1080P => 112,
            DimensionCode::P1080F60 => 116,
            DimensionCode::P4K => 120,
        }
    }
}

impl vstd::std_specs::convert::FromSpecImpl<DimensionCode> for i32 {
    open spec fn obeys_from_spec() -> bool {
        true
    }

    open spec fn from_spec(v: DimensionCode) -> Self {
        v.spec_code() as i32
    }
}

/// Law: a tier needs a credential exactly when it ranks above the three
/// lowest tiers.
pub proof fn lemma_need_login_above_three_lowest(d: DimensionCode)
    ensures
        d.spec_need_login() <==> d.spec_rank() >= 3,
{
}

/// Law: the numeric codes are injective on the tiers, and converting a
/// tier's code back yields the tier.
pub proof fn lemma_code_round_trip(d: DimensionCode)
    ensures
        DimensionCode::spec_from_code(d.spec_code()) == d,
{
}

/// The format codes the platform accepts for the stream-address call.
#[derive(Debug, Eq, PartialEq, Clone, Copy, Structural)]
pub enum VideoTypeCode {
    Flv1,
    Mp4,
    Flv2,
    Dash,
}

impl VideoTypeCode {
    /// The format code a container preference maps to: FLV to the legacy
    /// segmented container, MP4 to the separate-track container.
    pub open spec fn spec_of(vt: VideoType) -> VideoTypeCode {
        match vt {
            VideoType::Flv => VideoTypeCode::Flv2,
            VideoType::MP4 => VideoTypeCode::Dash,
        }
    }

    /// The numeric code the platform uses for the format.
    pub open spec fn spec_code(self) -> int {
        match self {
            VideoTypeCode::Flv1 => 0,
            VideoTypeCode::Mp4 => 1,
            VideoTypeCode::Flv2 => 2,
            VideoTypeCode::Dash => 16,
        }
    }

    /// The human-readable label of the format.
    pub open spec fn spec_label(self) -> Seq<char> {
        match self {
            VideoTypeCode::Flv1 => "FLV"@,
            VideoTypeCode::Mp4 => "MP4"@,
            VideoTypeCode::Flv2 => "FLV"@,
            VideoTypeCode::Dash => "高清MP4"@,
        }
    }

    pub fn label(&self) -> (r: String)
        ensures
            r@ == self.spec_label(),
    {
        match self {
            VideoTypeCode::Flv1 => String::from_str("FLV"),
            VideoTypeCode::Mp4 => String::from_str("MP4"),
            VideoTypeCode::Flv2 => String::from_str("FLV"),
            VideoTypeCode::Dash => String::from_str("高清MP4"),
        }
    }
}

impl From<VideoTypeCode> for i32 {
    fn from(video_type: VideoTypeCode) -> Self {
        match video_type {
            VideoTypeCode::Flv1 => 0,
            VideoTypeCode::Mp4 => 1,
            VideoTypeCode::Flv2 => 2,
            VideoTypeCode::Dash => 16,
        }
    }
}

impl vstd::std_specs::convert::FromSpecImpl<VideoTypeCode> for i32 {
    open spec fn obeys_from_spec() -> bool {
        true
    }

    open spec fn from_spec(v: VideoTypeCode) -> Self {
        v.spec_code() as i32
    }
}

impl From<VideoTypeCode> for VideoType {
    fn from(video_type: VideoTypeCode) -> Self {
        match video_type {
            VideoTypeCode::Flv1 => Self::Flv,
            VideoTypeCode::Mp4 => Self::MP4,
            VideoTypeCode::Flv2 => Self::Flv,
            VideoTypeCode::Dash => Self::MP4,
        }
    }
}

impl vstd::std_specs::convert::FromSpecImpl<VideoTypeCode> for VideoType {
    open spec fn obeys_from_spec() -> bool {
        true
    }

    open spec fn from_spec(v: VideoTypeCode) -> Self {
        match v {
            VideoTypeCode::Flv1 => VideoType::Flv,
            VideoTypeCode::Mp4 => VideoType::MP4,
            VideoTypeCode::Flv2 => VideoType::Flv,
            VideoTypeCode::Dash => VideoType::MP4,
        }
    }
}

impl From<VideoType> for VideoTypeCode {
    fn from(video_type: VideoType) -> Self {
        match video_type {
            VideoType::Flv => Self::Flv2,
            VideoType::MP4 => Self::Dash,
        }
    }
}

impl vstd::std_specs::convert::FromSpecImpl<VideoType> for VideoTypeCode {
    open spec fn obeys_from_spec() -> bool {
        true
    }

    open spec fn from_spec(v: VideoType) -> Self {
        VideoTypeCode::spec_of(v)
    }
}

} // verus!

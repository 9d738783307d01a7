use youngoor::bilibili::BilibiliSource;
use youngoor::codes::{DimensionCode, VideoTypeCode};
use youngoor::source::VideoType;

#[test]
fn need_login_false_for_three_lowest_tiers() {
    assert!(!DimensionCode::P240.need_login());
    assert!(!DimensionCode::P360.need_login());
    assert!(!DimensionCode::P480.need_login());
    assert!(DimensionCode::P720.need_login());
    assert!(DimensionCode::P720F60.need_login());
    assert!(DimensionCode::P1080.need_login());
    assert!(DimensionCode::P1080P.need_login());
    assert!(DimensionCode::P1080F60.need_login());
    assert!(DimensionCode::P4K.need_login());
}

#[test]
fn dimension_code_conversions() {
    assert_eq!(i32::from(DimensionCode::P240), 6);
    assert_eq!(i32::from(DimensionCode::P480), 32);
    assert_eq!(i32::from(DimensionCode::P4K), 120);
    assert_eq!(DimensionCode::from(6), DimensionCode::P240);
    assert_eq!(DimensionCode::from(16), DimensionCode::P360);
    assert_eq!(DimensionCode::from(120), DimensionCode::P4K);
    // unknown codes fall back to 720P
    assert_eq!(DimensionCode::from(999), DimensionCode::P720);
}

#[test]
fn video_type_code_conversions() {
    assert_eq!(VideoTypeCode::from(VideoType::Flv), VideoTypeCode::Flv2);
    assert_eq!(VideoTypeCode::from(VideoType::MP4), VideoTypeCode::Dash);
    assert_eq!(VideoType::from(VideoTypeCode::Flv1), VideoType::Flv);
    assert_eq!(VideoType::from(VideoTypeCode::Flv2), VideoType::Flv);
    assert_eq!(VideoType::from(VideoTypeCode::Mp4), VideoType::MP4);
    assert_eq!(VideoType::from(VideoTypeCode::Dash), VideoType::MP4);
    assert_eq!(i32::from(VideoTypeCode::Flv2), 2);
    assert_eq!(i32::from(VideoTypeCode::Dash), 16);
}

#[test]
fn dimension_lists_every_producible_tier_ascending() {
    let source = BilibiliSource::new();
    let table = source.dimension();
    assert_eq!(table.len(), 9);
    assert_eq!(table[0].0, 6);
    assert_eq!(table[0].1, "240P 极速");
    assert_eq!(table[1].0, 16);
    assert_eq!(table[1].1, "360P 流畅");
    assert_eq!(table[8].0, 120);
    assert_eq!(table[8].1, "4K 超清（大会员）");
    // strictly ascending quality, each with a non-empty label
    for w in table.windows(2) {
        assert!(w[0].0 < w[1].0);
    }
    for entry in &table {
        assert!(!entry.1.is_empty());
    }
    // every tier the code mapping can produce is listed
    for code in [6, 16, 32, 64, 74, 80, 112, 116, 120, 999] {
        let tier = DimensionCode::from(code);
        assert!(table.iter().any(|e| e.0 == i32::from(tier)));
    }
}

#[test]
fn tier_labels() {
    assert_eq!(DimensionCode::P720.label(), "720P 高清（登录）");
    assert_eq!(DimensionCode::P1080P.label(), "1080P+ 高清（大会员）");
    assert_eq!(VideoTypeCode::Flv1.label(), "FLV");
    assert_eq!(VideoTypeCode::Dash.label(), "高清MP4");
}

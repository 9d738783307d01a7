use youngoor::bilibili::{BilibiliSource, UrlType};
use youngoor::source::{dispatch, VideoSource};
use youngoor::urlparts::parse_url_parts;

#[test]
fn url_type_test() {
    assert_eq!(
        BilibiliSource::url_type(
            &parse_url_parts("https://www.bilibili.com/video/BVXXXXXX").unwrap()
        ),
        Some(UrlType::Video("BVXXXXXX".to_string()))
    );
    assert_eq!(
        BilibiliSource::url_type(
            &parse_url_parts("https://www.bilibili.com/bangumi/media/md28229053").unwrap()
        ),
        Some(UrlType::Bangumi(28229053))
    );
    assert_eq!(
        BilibiliSource::url_type(
            &parse_url_parts("https://www.bilibili.com/bangumi/play/ep327884").unwrap()
        ),
        None
    );
}

#[test]
fn url_type_accepts_bare_and_uppercase_host() {
    assert_eq!(
        BilibiliSource::url_type(&parse_url_parts("https://bilibili.com/video/BV1y7").unwrap()),
        Some(UrlType::Video("BV1y7".to_string()))
    );
    // the url crate normalizes the host to lower case while parsing
    assert_eq!(
        BilibiliSource::url_type(
            &parse_url_parts("https://WWW.BILIBILI.COM/video/BV1y7").unwrap()
        ),
        Some(UrlType::Video("BV1y7".to_string()))
    );
}

#[test]
fn url_type_rejects_token_without_prefix() {
    assert_eq!(
        BilibiliSource::url_type(
            &parse_url_parts("https://www.bilibili.com/video/AV170001").unwrap()
        ),
        None
    );
    assert_eq!(
        BilibiliSource::url_type(&parse_url_parts("https://www.bilibili.com/video/").unwrap()),
        None
    );
}

#[test]
fn url_type_rejects_foreign_host_and_bad_media_id() {
    assert_eq!(
        BilibiliSource::url_type(
            &parse_url_parts("https://www.youtube.com/video/BVXXXXXX").unwrap()
        ),
        None
    );
    assert_eq!(
        BilibiliSource::url_type(
            &parse_url_parts("https://www.bilibili.com/bangumi/media/mdabc").unwrap()
        ),
        None
    );
    assert_eq!(
        BilibiliSource::url_type(
            &parse_url_parts("https://www.bilibili.com/bangumi/media/28229053").unwrap()
        ),
        None
    );
}

#[test]
fn dispatch_picks_first_recognizing_source() {
    let sources = vec![BilibiliSource::new(), BilibiliSource::new()];
    let hit = parse_url_parts("https://www.bilibili.com/video/BV1ex411J7GE").unwrap();
    let miss = parse_url_parts("https://example.org/video/BV1ex411J7GE").unwrap();
    assert_eq!(dispatch(&sources, &hit), Some(0));
    assert_eq!(dispatch(&sources, &miss), None);
}

#[test]
fn token_round_trip_and_pretty_name() {
    let mut source = BilibiliSource::new();
    assert_eq!(source.pretty_name(), "bilibili");
    assert_eq!(source.token(), None);
    source.set_token("SESSDATA=abc123".to_string());
    assert_eq!(source.token(), Some("SESSDATA=abc123"));
}

use youngoor::bilibili::{
    make_bangumi_items, process_video_url, ApiPayload, BangumiInfo, BilibiliSource, Dash,
    DashItem, Durl, Episode, EpisodesInfo, FlowStage, MediaInfo, PInfo, VideoUrlInfo,
};
use youngoor::codes::DimensionCode;
use youngoor::envelope::Response;
use youngoor::error::VideoSourceError;
use youngoor::source::{VideoSource, VideoType};
use youngoor::urlparts::parse_url_parts;

fn ok_env(data: ApiPayload) -> Response<ApiPayload> {
    Response { code: 0, message: "0".to_string(), data: Some(data) }
}

fn part(cid: i32, page: i32, title: &str) -> PInfo {
    PInfo { cid, page, part: title.to_string(), duration: 60 }
}

fn episode(bvid: &str, cid: i32, title: &str, long_title: &str) -> Episode {
    Episode {
        bvid: bvid.to_string(),
        cid,
        cover: "https://i0.hdslb.com/cover.jpg".to_string(),
        id: 1,
        long_title: long_title.to_string(),
        title: title.to_string(),
    }
}

fn stream_info(durl: Option<Vec<Durl>>, dash: Option<Dash>) -> VideoUrlInfo {
    VideoUrlInfo {
        quality: 32,
        format: "mp4".to_string(),
        time_length: 1000,
        accept_format: "mp4".to_string(),
        accept_description: vec![],
        accept_quality: vec![],
        durl,
        dash,
    }
}

fn durl(url: &str) -> Durl {
    Durl { order: 1, length: 1000, size: 10, url: url.to_string(), backup_url: vec![] }
}

fn dash_item(id: i32, url: &str) -> DashItem {
    DashItem { id, base_url: url.to_string(), backup_url: vec![] }
}

#[test]
fn segmented_response_yields_one_video_url_per_segment() {
    let info = stream_info(
        Some(vec![durl("https://cn.bilivideo.com/1.flv"), durl("https://cn.bilivideo.com/2.flv")]),
        None,
    );
    let (video, audio) = process_video_url(info, DimensionCode::P480, "BV1").unwrap();
    assert_eq!(video.len(), 2);
    assert_eq!(video[0], "https://cn.bilivideo.com/1.flv");
    assert_eq!(video[1], "https://cn.bilivideo.com/2.flv");
    assert_eq!(audio.len(), 0);
}

#[test]
fn separate_track_without_requested_code_is_not_found() {
    let info = stream_info(
        None,
        Some(Dash {
            duration: 1000,
            video: vec![
                dash_item(32, "https://cn.bilivideo.com/v32.m4s"),
                dash_item(64, "https://cn.bilivideo.com/v64.m4s"),
            ],
            audio: vec![dash_item(30216, "https://cn.bilivideo.com/a.m4s")],
        }),
    );
    match process_video_url(info, DimensionCode::P1080, "BV1") {
        Err(VideoSourceError::NoSuchResource(context)) => assert_eq!(context, "bvid=BV1"),
        other => panic!("expected NoSuchResource, got {:?}", other),
    }
}

#[test]
fn separate_track_picks_exact_code_and_first_audio() {
    let info = stream_info(
        None,
        Some(Dash {
            duration: 1000,
            video: vec![
                dash_item(32, "https://cn.bilivideo.com/v32.m4s"),
                dash_item(80, "https://cn.bilivideo.com/v80a.m4s"),
                dash_item(80, "https://cn.bilivideo.com/v80b.m4s"),
            ],
            audio: vec![
                dash_item(30216, "https://cn.bilivideo.com/a1.m4s"),
                dash_item(30232, "https://cn.bilivideo.com/a2.m4s"),
            ],
        }),
    );
    let (video, audio) = process_video_url(info, DimensionCode::P1080, "BV1").unwrap();
    assert_eq!(video, vec!["https://cn.bilivideo.com/v80a.m4s".to_string()]);
    assert_eq!(audio, vec!["https://cn.bilivideo.com/a1.m4s".to_string()]);
}

#[test]
fn empty_response_shapes_are_not_found() {
    match process_video_url(stream_info(None, None), DimensionCode::P480, "BV9") {
        Err(VideoSourceError::NoSuchResource(context)) => assert_eq!(context, "bvid=BV9"),
        other => panic!("expected NoSuchResource, got {:?}", other),
    }
    // a segmented list that is present but empty is not a populated shape
    match process_video_url(stream_info(Some(vec![]), None), DimensionCode::P480, "BV9") {
        Err(VideoSourceError::NoSuchResource(context)) => assert_eq!(context, "bvid=BV9"),
        other => panic!("expected NoSuchResource, got {:?}", other),
    }
    // separate-track with no audio candidate at all
    let info = stream_info(
        None,
        Some(Dash {
            duration: 1000,
            video: vec![dash_item(32, "https://cn.bilivideo.com/v32.m4s")],
            audio: vec![],
        }),
    );
    match process_video_url(info, DimensionCode::P480, "BV9") {
        Err(VideoSourceError::NoSuchResource(context)) => assert_eq!(context, "bvid=BV9"),
        other => panic!("expected NoSuchResource, got {:?}", other),
    }
}

#[test]
fn unparsable_segment_url_is_a_request_error() {
    let info = stream_info(Some(vec![durl("no scheme")]), None);
    match process_video_url(info, DimensionCode::P480, "BV1") {
        Err(VideoSourceError::RequestError(message)) => {
            assert_eq!(message, "无效的地址: no scheme")
        },
        other => panic!("expected RequestError, got {:?}", other),
    }
}

#[test]
fn bad_cover_url_fails_the_episode_list() {
    let mut bad = episode("BV2", 8, "02", "第二话");
    bad.cover = "not a url".to_string();
    let episodes = vec![episode("BV1", 7, "01", "第一话"), bad];
    match make_bangumi_items(&episodes, VideoType::MP4) {
        Err(VideoSourceError::RequestError(message)) => {
            assert_eq!(message, "视频地址错误: bvid=BV2,cid=8")
        },
        other => panic!("expected RequestError, got {:?}", other),
    }
}

#[test]
fn authenticated_tier_without_credential_fails_before_any_call() {
    let source = BilibiliSource::new();
    let url = parse_url_parts("https://www.bilibili.com/video/BV1y7411Q7Eq").unwrap();
    // 80 is the 1080P tier, which is credential-gated
    let flow = source.video_list(&url, VideoType::MP4, 80).unwrap();
    let mut calls: u32 = 0;

    let request = flow.next_request(&source).unwrap().unwrap();
    calls += 1; // the transport would issue the part-list call here
    assert!(request.url.contains("pagelist"));
    assert_eq!(request.cookie, None);

    let mut flow = flow;
    let produced = flow
        .on_response(200, Some(ok_env(ApiPayload::Parts(vec![part(171776208, 1, "01")]))), &request.url)
        .unwrap();
    assert!(produced.is_none());
    assert!(matches!(flow.stage, FlowStage::FetchStream));

    // the stream call needs the credential: refused with no request handed
    // out, so the transport never runs a second time
    match flow.next_request(&source) {
        Err(VideoSourceError::NeedLogin) => {},
        other => panic!("expected NeedLogin, got {:?}", other),
    }
    assert_eq!(calls, 1);

    // with a credential set, the same request goes through and carries it
    let mut source = source;
    source.set_token("SESSDATA=abc123".to_string());
    let request = flow.next_request(&source).unwrap().unwrap();
    assert_eq!(request.cookie.as_deref(), Some("SESSDATA=abc123"));
    assert!(request.query.iter().any(|p| p.0 == "qn" && p.1 == "80"));
}

#[test]
fn two_episode_series_resolves_in_order_and_lazily() {
    let source = BilibiliSource::new();
    let url = parse_url_parts("https://www.bilibili.com/bangumi/media/md28229053").unwrap();
    let mut flow = source.video_list(&url, VideoType::MP4, 32).unwrap();
    let mut calls: u32 = 0;

    // classification happened without any network call
    assert!(matches!(flow.stage, FlowStage::FetchSsid { media_id: 28229053 }));

    let request = flow.next_request(&source).unwrap().unwrap();
    calls += 1;
    assert!(request.url.contains("review/user"));
    assert!(request.query.iter().any(|p| p.0 == "media_id" && p.1 == "28229053"));
    let lookup = BangumiInfo {
        media: MediaInfo {
            cover: "https://i0.hdslb.com/c.jpg".to_string(),
            media_id: 28229053,
            season_id: 33624,
            title: "红楼梦".to_string(),
        },
    };
    flow.on_response(200, Some(ok_env(ApiPayload::Bangumi(lookup))), &request.url).unwrap();
    assert!(matches!(flow.stage, FlowStage::FetchEpisodes { ssid: 33624 }));

    let request = flow.next_request(&source).unwrap().unwrap();
    calls += 1;
    assert!(request.query.iter().any(|p| p.0 == "season_id" && p.1 == "33624"));
    let listing = EpisodesInfo {
        episodes: vec![episode("BVa", 1, "第1话", "开端"), episode("BVb", 2, "第2话", "续章")],
        evaluate: "简介".to_string(),
        media_id: 28229053,
        season_id: 33624,
        title: "红楼梦".to_string(),
    };
    flow.on_response(200, Some(ok_env(ApiPayload::Episodes(listing))), &request.url).unwrap();

    // first episode: exactly one stream call, producing the first element
    let request = flow.next_request(&source).unwrap().unwrap();
    calls += 1;
    assert!(request.query.iter().any(|p| p.0 == "bvid" && p.1 == "BVa"));
    let info = flow
        .on_response(
            200,
            Some(ok_env(ApiPayload::Streams(stream_info(
                Some(vec![durl("https://cn.bilivideo.com/e1.mp4")]),
                None,
            )))),
            &request.url,
        )
        .unwrap()
        .unwrap();
    assert_eq!(info.title, "开端 第1话");
    assert_eq!(info.pic.as_deref(), Some("https://i0.hdslb.com/cover.jpg"));
    assert_eq!(info.video, vec!["https://cn.bilivideo.com/e1.mp4".to_string()]);
    assert_eq!(info.audio.len(), 0);
    assert_eq!(info.dimension, 32);

    // consuming only the first element has not triggered a call for the
    // second: three calls so far, and the second one runs only on demand
    assert_eq!(calls, 3);

    let request = flow.next_request(&source).unwrap().unwrap();
    calls += 1;
    assert!(request.query.iter().any(|p| p.0 == "bvid" && p.1 == "BVb"));
    let info = flow
        .on_response(
            200,
            Some(ok_env(ApiPayload::Streams(stream_info(
                Some(vec![durl("https://cn.bilivideo.com/e2.mp4")]),
                None,
            )))),
            &request.url,
        )
        .unwrap()
        .unwrap();
    assert_eq!(info.title, "续章 第2话");
    assert_eq!(calls, 4);

    // drained: exactly two elements came out, in remote order
    assert!(matches!(flow.stage, FlowStage::Finished));
    assert!(flow.next_request(&source).unwrap().is_none());
}

#[test]
fn failed_envelope_aborts_the_flow() {
    let source = BilibiliSource::new();
    let url = parse_url_parts("https://www.bilibili.com/video/BVxxxxxx").unwrap();
    let mut flow = source.video_list(&url, VideoType::Flv, 32).unwrap();
    let request = flow.next_request(&source).unwrap().unwrap();
    let envelope: Response<ApiPayload> =
        Response { code: -404, message: "啥都木有".to_string(), data: None };
    match flow.on_response(200, Some(envelope), &request.url) {
        Err(VideoSourceError::NoSuchResource(context)) => assert_eq!(context, request.url),
        other => panic!("expected NoSuchResource, got {:?}", other),
    }
    assert!(matches!(flow.stage, FlowStage::Finished));
}

#[test]
fn unrecognized_url_fails_before_any_call() {
    let source = BilibiliSource::new();
    let url = parse_url_parts("https://www.bilibili.com/bangumi/play/ep327884").unwrap();
    match source.video_list(&url, VideoType::MP4, 32) {
        Err(VideoSourceError::InvalidUrl(which)) => {
            assert_eq!(which, "https://www.bilibili.com/bangumi/play/ep327884")
        },
        other => panic!("expected InvalidUrl, got {:?}", other),
    }
}

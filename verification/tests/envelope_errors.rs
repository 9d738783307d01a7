use youngoor::envelope::{wrap_response_not_null, wrap_response_null, Response};
use youngoor::error::VideoSourceError;
use youngoor::numtext::{eq_ignore_ascii_case, i32_to_string, parse_i32, str_starts_with};
use youngoor::transport::http_request_outcome;
use youngoor::urlparts::parse_url;

fn envelope(code: i32, message: &str, data: Option<u32>) -> Response<u32> {
    Response { code, message: message.to_string(), data }
}

#[test]
fn envelope_code_zero_hands_payload_through() {
    let r = wrap_response_null(envelope(0, "ok", Some(7)), "http://x/a");
    assert_eq!(r.unwrap(), Some(7));
    let r = wrap_response_null(envelope(0, "ok", None), "http://x/a");
    assert_eq!(r.unwrap(), None);
}

#[test]
fn envelope_not_found_carries_request_url() {
    let r: Result<Option<u32>, _> = wrap_response_null(envelope(-404, "gone", Some(7)), "http://x/a");
    match r {
        Err(VideoSourceError::NoSuchResource(context)) => assert_eq!(context, "http://x/a"),
        other => panic!("expected NoSuchResource, got {:?}", other),
    }
}

#[test]
fn envelope_bad_request_carries_remote_message() {
    let r: Result<Option<u32>, _> = wrap_response_null(envelope(-400, "bad arg", None), "http://x/a");
    match r {
        Err(VideoSourceError::RequestError(message)) => assert_eq!(message, "bad arg"),
        other => panic!("expected RequestError, got {:?}", other),
    }
    // any other non-zero code is a generic request error too
    let r: Result<Option<u32>, _> = wrap_response_null(envelope(-352, "risk", None), "http://x/a");
    match r {
        Err(VideoSourceError::RequestError(message)) => assert_eq!(message, "risk"),
        other => panic!("expected RequestError, got {:?}", other),
    }
}

#[test]
fn envelope_missing_payload_is_not_found() {
    let r = wrap_response_not_null(envelope(0, "ok", None), "http://x/b");
    match r {
        Err(VideoSourceError::NoSuchResource(context)) => assert_eq!(context, "http://x/b"),
        other => panic!("expected NoSuchResource, got {:?}", other),
    }
    let r = wrap_response_not_null(envelope(0, "ok", Some(9)), "http://x/b");
    assert_eq!(r.unwrap(), 9);
}

#[test]
fn transport_status_mapping() {
    // anything in the 200 range passes
    assert!(http_request_outcome(200).is_ok());
    assert!(http_request_outcome(204).is_ok());
    assert!(http_request_outcome(206).is_ok());
    assert!(http_request_outcome(299).is_ok());
    match http_request_outcome(404) {
        Err(VideoSourceError::RequestError(reason)) => assert_eq!(reason, "Not Found"),
        other => panic!("expected RequestError, got {:?}", other),
    }
    // a status with no canonical phrase falls back to the fixed message
    match http_request_outcome(599) {
        Err(VideoSourceError::RequestError(reason)) => assert_eq!(reason, "请求错误"),
        other => panic!("expected RequestError, got {:?}", other),
    }
}

#[test]
fn error_messages_carry_context() {
    assert_eq!(VideoSourceError::NeedLogin.message(), "需要登录");
    assert_eq!(
        VideoSourceError::NoSuchResource("bvid=BV1".to_string()).message(),
        "找不到资源: bvid=BV1"
    );
    assert_eq!(
        VideoSourceError::InvalidUrl("ftp://nowhere".to_string()).message(),
        "无效的链接: ftp://nowhere"
    );
}

#[test]
fn url_validation() {
    assert_eq!(parse_url("https://api.bilibili.com/x/player/pagelist").unwrap(),
        "https://api.bilibili.com/x/player/pagelist");
    match parse_url("no scheme at all") {
        Err(VideoSourceError::RequestError(message)) => {
            assert_eq!(message, "无效的地址: no scheme at all")
        },
        other => panic!("expected RequestError, got {:?}", other),
    }
}

#[test]
fn decimal_parse_matches_std() {
    assert_eq!(parse_i32("123"), Some(123));
    assert_eq!(parse_i32("+42"), Some(42));
    assert_eq!(parse_i32("-2147483648"), Some(i32::MIN));
    assert_eq!(parse_i32("2147483647"), Some(i32::MAX));
    assert_eq!(parse_i32("2147483648"), None);
    assert_eq!(parse_i32("99999999999999999999"), None);
    assert_eq!(parse_i32(""), None);
    assert_eq!(parse_i32("+"), None);
    assert_eq!(parse_i32("12a"), None);
    assert_eq!(parse_i32(" 12"), None);
}

#[test]
fn decimal_format_matches_std() {
    assert_eq!(i32_to_string(0), "0");
    assert_eq!(i32_to_string(28229053), "28229053");
    assert_eq!(i32_to_string(-123), "-123");
    assert_eq!(i32_to_string(i32::MIN), "-2147483648");
    assert_eq!(i32_to_string(i32::MAX), "2147483647");
    // rendering and parsing round-trip
    for v in [0, 1, -1, 33624, -28229053, i32::MIN, i32::MAX] {
        assert_eq!(parse_i32(&i32_to_string(v)), Some(v));
    }
}

#[test]
fn text_helpers() {
    assert!(eq_ignore_ascii_case("WWW.BiliBili.Com", "www.bilibili.com"));
    assert!(!eq_ignore_ascii_case("bilibili.com", "bilibili.org"));
    assert!(str_starts_with("BV1ex411J7GE", "BV"));
    assert!(!str_starts_with("AV170001", "BV"));
}

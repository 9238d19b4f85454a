use agent_server::finder_short_link::{
    check_response_head, check_short_link_ids, cookie_header, error_status, parse_response, prepare_short_link_request,
    read_reply, trusted_link, valid_cookie, valid_nonce_id, valid_object_id, CookieSources,
    FinderShortLinkError,
};
use agent_server::json::{parse_json, JsonValue};

fn obj(members: Vec<(&str, JsonValue)>) -> JsonValue {
    JsonValue::Object(members.into_iter().map(|(k, v)| (k.to_string(), v)).collect())
}

fn text(s: &str) -> JsonValue {
    JsonValue::Str(s.to_string())
}

fn sources(cookie_file: Option<&str>, cookie_env: Option<&str>, session_file: Option<&str>, session_env: Option<&str>) -> CookieSources {
    CookieSources {
        cookie_file: cookie_file.map(|s| s.to_string()),
        cookie_env: cookie_env.map(|s| s.to_string()),
        session_info_file: session_file.map(|s| s.to_string()),
        session_info_env: session_env.map(|s| s.to_string()),
    }
}

#[test]
fn validates_exact_finder_identity() {
    assert!(valid_object_id("14726213509764749552"));
    assert!(valid_nonce_id(
        "11529959359054593652_4_20_13_1_1789211747091905_504lish"
    ));
    assert!(!valid_object_id("012345"));
    assert!(!valid_nonce_id("bad cookie"));
}

#[test]
fn accepts_cookie_headers_without_control_characters() {
    assert!(valid_cookie("sessionInfo=abc123; token=def-456"));
    assert!(!valid_cookie("sessionInfo="));
    assert!(!valid_cookie("sessionInfo=abc\r\nInjected=yes"));
    assert!(!valid_cookie("invalid"));
}

#[test]
fn accepts_only_official_short_links() {
    assert_eq!(
        trusted_link("https://weixin.qq.com/sph/AbCdEf1234"),
        Some("https://weixin.qq.com/sph/AbCdEf1234".to_string())
    );
    assert_eq!(
        trusted_link("https://channels.weixin.qq.com/finder-preview/pages/sph?id=AbCd"),
        Some("https://channels.weixin.qq.com/finder-preview/pages/sph?id=AbCd".to_string())
    );
    assert_eq!(trusted_link("https://example.com/sph/AbCd"), None);
}

#[test]
fn parses_success_without_exposing_remote_messages() {
    assert_eq!(
        parse_response(&obj(vec![
            ("errCode", JsonValue::Int(0)),
            ("data", obj(vec![("shortUrl", text("https://weixin.qq.com/sph/AbCdEf1234"))])),
        ])),
        Ok("https://weixin.qq.com/sph/AbCdEf1234".to_string())
    );
    assert_eq!(
        parse_response(&obj(vec![("errCode", JsonValue::Int(300330)), ("errMsg", text("private"))])),
        Err(FinderShortLinkError::RemoteRejected)
    );
}

#[test]
fn object_id_bounds() {
    assert!(valid_object_id("123456"));
    assert!(!valid_object_id("12345"));
    assert!(valid_object_id("12345678901234567890123456789012"));
    assert!(!valid_object_id("123456789012345678901234567890123"));
    assert!(!valid_object_id("12345a"));
    assert!(!valid_object_id("１２３４５６"));
}

#[test]
fn nonce_id_alphabet() {
    assert!(valid_nonce_id("aZ09_.~+/=-"));
    assert!(!valid_nonce_id("abc12"));
    assert!(!valid_nonce_id("abcdef?"));
    assert!(valid_nonce_id(&"a".repeat(512)));
    assert!(!valid_nonce_id(&"a".repeat(513)));
}

#[test]
fn cookie_rules() {
    assert!(valid_cookie("a=b"));
    assert!(valid_cookie(" a=b ;  c_d-e=x=y "));
    assert!(!valid_cookie(""));
    assert!(!valid_cookie("a=b;"));
    assert!(!valid_cookie("=b"));
    assert!(!valid_cookie("a b=c"));
    assert!(!valid_cookie("a=b\x7f"));
    assert!(valid_cookie("a=b\u{00a0}"));
    assert!(!valid_cookie(&format!("a={}", "x".repeat(32 * 1024))));
}

#[test]
fn cookie_sources_in_order() {
    assert_eq!(cookie_header(&sources(Some(" a=1\n"), Some("b=2"), Some("s"), None)), Ok("a=1".to_string()));
    assert_eq!(cookie_header(&sources(None, Some("b=2"), Some("s"), None)), Ok("b=2".to_string()));
    assert_eq!(cookie_header(&sources(None, None, Some(" tok\n"), Some("other"))), Ok("sessionInfo=tok".to_string()));
    assert_eq!(cookie_header(&sources(None, None, None, Some("tok2"))), Ok("sessionInfo=tok2".to_string()));
    assert_eq!(cookie_header(&sources(None, None, None, None)), Err(FinderShortLinkError::SessionUnavailable));
    assert_eq!(cookie_header(&sources(Some("broken"), Some("b=2"), None, None)), Err(FinderShortLinkError::SessionUnavailable));
}

#[test]
fn request_checks_identity_then_session() {
    let good = sources(None, Some("sessionInfo=abc"), None, None);
    assert_eq!(prepare_short_link_request("012345", "bad cookie", &good).err(), Some(FinderShortLinkError::InvalidObjectId));
    assert_eq!(prepare_short_link_request("123456", "bad cookie", &good).err(), Some(FinderShortLinkError::InvalidNonceId));
    let none = sources(None, None, None, None);
    assert_eq!(prepare_short_link_request("123456", "nonce1", &none).err(), Some(FinderShortLinkError::SessionUnavailable));
    let req = prepare_short_link_request("123456", "nonce1", &good).unwrap();
    assert_eq!(req.export_id, "123456");
    assert_eq!(req.nonce_id, "nonce1");
    assert_eq!(req.scene, 40);
    assert_eq!(req.cookie, "sessionInfo=abc");
}

#[test]
fn response_head_and_body_limits() {
    assert_eq!(check_response_head(200, None), Ok(()));
    assert_eq!(check_response_head(204, Some(1024 * 1024)), Ok(()));
    assert_eq!(check_response_head(200, Some(1024 * 1024 + 1)), Err(FinderShortLinkError::RequestFailed));
    assert_eq!(check_response_head(302, None), Err(FinderShortLinkError::RequestFailed));
    assert_eq!(check_response_head(500, Some(10)), Err(FinderShortLinkError::RequestFailed));
    let mut big = br#"{"errCode":0,"url":"https://weixin.qq.com/sph/x"}"#.to_vec();
    big.resize(1024 * 1024 + 1, b' ');
    assert_eq!(read_reply(&big), Err(FinderShortLinkError::ResponseInvalid));
    let mut exact = br#"{"errcode":0,"url":"https://weixin.qq.com/sph/x"}"#.to_vec();
    exact.resize(1024 * 1024, b' ');
    assert_eq!(read_reply(&exact), Ok("https://weixin.qq.com/sph/x".to_string()));
    assert_eq!(read_reply(b"not json"), Err(FinderShortLinkError::ResponseInvalid));
    assert_eq!(read_reply(b""), Err(FinderShortLinkError::ResponseInvalid));
    assert_eq!(
        read_reply(br#"{"errcode":0,"url":" https://weixin.qq.com/sph/x "}"#),
        Ok("https://weixin.qq.com/sph/x".to_string())
    );
    assert_eq!(read_reply(br#"{"errCode":1.5}"#), Err(FinderShortLinkError::ResponseInvalid));
    assert_eq!(read_reply(br#"{"errCode":18446744073709551615}"#), Err(FinderShortLinkError::ResponseInvalid));
    assert_eq!(read_reply(br#"{"errCode":7}"#), Err(FinderShortLinkError::RemoteRejected));
    assert_eq!(
        read_reply(br#"{"errCode":0,"data":{"shortUrl":"https://weixin.qq.com/sph/z"}}"#),
        Ok("https://weixin.qq.com/sph/z".to_string())
    );
}

#[test]
fn reply_rules() {
    // missing or non-integer error code
    assert_eq!(parse_response(&obj(vec![])), Err(FinderShortLinkError::ResponseInvalid));
    assert_eq!(parse_response(&obj(vec![("errCode", text("0"))])), Err(FinderShortLinkError::ResponseInvalid));
    assert_eq!(parse_response(&obj(vec![("errCode", JsonValue::NonInteger)])), Err(FinderShortLinkError::ResponseInvalid));
    // errCode present but not an integer does not fall back to errcode
    assert_eq!(
        parse_response(&obj(vec![("errCode", JsonValue::Null), ("errcode", JsonValue::Int(0))])),
        Err(FinderShortLinkError::ResponseInvalid)
    );
    assert_eq!(parse_response(&JsonValue::Array(vec![])), Err(FinderShortLinkError::ResponseInvalid));
    // no trusted link
    assert_eq!(parse_response(&obj(vec![("errCode", JsonValue::Int(0))])), Err(FinderShortLinkError::LinkMissing));
    assert_eq!(
        parse_response(&obj(vec![("errCode", JsonValue::Int(0)), ("shortUrl", text("https://evil.example/sph/x"))])),
        Err(FinderShortLinkError::LinkMissing)
    );
    // a later name is tried when an earlier one is not trusted
    assert_eq!(
        parse_response(&obj(vec![
            ("errCode", JsonValue::UInt(0)),
            ("shortUrl", text("http://weixin.qq.com/sph/x")),
            ("data", obj(vec![("url", text("https://weixin.qq.com/sph/y"))])),
        ])),
        Ok("https://weixin.qq.com/sph/y".to_string())
    );
    // a huge unsigned error code is not an i64
    assert_eq!(parse_response(&obj(vec![("errCode", JsonValue::UInt(u64::MAX))])), Err(FinderShortLinkError::ResponseInvalid));
}

#[test]
fn untrusted_link_shapes() {
    assert_eq!(trusted_link("https://user@weixin.qq.com/sph/a"), None);
    assert_eq!(trusted_link("https://weixin.qq.com:8443/sph/a"), None);
    assert_eq!(trusted_link("https://weixin.qq.com:443/sph/a"), Some("https://weixin.qq.com:443/sph/a".to_string()));
    assert_eq!(trusted_link("https://weixin.qq.com/other"), None);
    assert_eq!(trusted_link("not a url"), None);
    assert_eq!(trusted_link("  https://weixin.qq.com/sph/a\n"), Some("https://weixin.qq.com/sph/a".to_string()));
}

#[test]
fn error_codes_and_statuses() {
    let all = [
        (FinderShortLinkError::InvalidObjectId, "FINDER_OBJECT_ID_INVALID", 422),
        (FinderShortLinkError::InvalidNonceId, "FINDER_NONCE_ID_INVALID", 422),
        (FinderShortLinkError::SessionUnavailable, "FINDER_SESSION_UNAVAILABLE", 503),
        (FinderShortLinkError::RequestFailed, "FINDER_SHORT_LINK_REQUEST_FAILED", 502),
        (FinderShortLinkError::ResponseInvalid, "FINDER_SHORT_LINK_RESPONSE_INVALID", 502),
        (FinderShortLinkError::RemoteRejected, "FINDER_SHORT_LINK_REMOTE_REJECTED", 502),
        (FinderShortLinkError::LinkMissing, "FINDER_SHORT_LINK_MISSING", 502),
    ];
    for (e, code, status) in all {
        assert_eq!(e.code(), code);
        assert_eq!(error_status(&e), status);
    }
}

#[test]
fn ids_are_checked_on_their_own() {
    assert_eq!(check_short_link_ids("012345", "bad cookie"), Err(FinderShortLinkError::InvalidObjectId));
    assert_eq!(check_short_link_ids("14726213509764749552", "bad cookie"), Err(FinderShortLinkError::InvalidNonceId));
    assert_eq!(check_short_link_ids("14726213509764749552", "nonce_1"), Ok(()));
}

#[test]
fn json_documents_as_plain_values() {
    let doc = parse_json(br#"[1, -2, 1.5, "a", null, true, {"k": 18446744073709551615, "b": []}]"#).unwrap();
    let JsonValue::Array(items) = doc else { panic!("not an array") };
    assert!(matches!(items[0], JsonValue::Int(1)));
    assert!(matches!(items[1], JsonValue::Int(-2)));
    assert!(matches!(items[2], JsonValue::NonInteger));
    assert!(matches!(&items[3], JsonValue::Str(s) if s == "a"));
    assert!(matches!(items[4], JsonValue::Null));
    assert!(matches!(items[5], JsonValue::Bool(true)));
    assert_eq!(items[6].get("k").and_then(|v| v.as_i64()), None);
    assert!(matches!(items[6].get("k"), Some(JsonValue::UInt(u64::MAX))));
    assert!(matches!(items[6].get("b"), Some(JsonValue::Array(a)) if a.is_empty()));
    assert!(parse_json(b"{").is_none());
    assert!(parse_json(b"1 2").is_none());
}

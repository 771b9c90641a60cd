use rust_tok::error::TikTokError;
use rust_tok::pipeline::{
    on_fetch_result, on_sign_result, parse_signature, start_request, status_to_result,
    validate_response, ExecPhase,
};
use rust_tok::types::RequestParams;
use rust_tok::urlq::{append_signature, build_url, contains_char, extract_video_id_from_url};

#[test]
fn status_codes_map_to_api_errors() {
    match status_to_result(Some(Some(10101))) {
        Err(TikTokError::ApiError(10101)) => (),
        other => panic!("expected ApiError(10101), got {:?}", other),
    }
    assert!(status_to_result(Some(Some(0))).is_ok());
    assert!(status_to_result(None).is_ok());
    match status_to_result(Some(None)) {
        Err(TikTokError::InvalidJSON) => (),
        other => panic!("expected InvalidJSON, got {:?}", other),
    }
}

#[test]
fn response_with_error_code_fails() {
    match validate_response("{\"status_code\": 10101}") {
        Err(TikTokError::ApiError(10101)) => (),
        other => panic!("expected ApiError(10101), got {:?}", other),
    }
}

#[test]
fn response_with_zero_code_succeeds() {
    let v = validate_response("{\"status_code\": 0, \"itemList\": []}").unwrap();
    assert_eq!(v.get("itemList").and_then(|x| x.as_array()).map(|a| a.len()), Some(0));
}

#[test]
fn empty_and_malformed_bodies() {
    match validate_response("") {
        Err(TikTokError::EmptyResponse) => (),
        other => panic!("expected EmptyResponse, got {:?}", other),
    }
    match validate_response("this is not json") {
        Err(TikTokError::InvalidJSON) => (),
        other => panic!("expected InvalidJSON, got {:?}", other),
    }
    // no status code at all still parses
    assert!(validate_response("{\"userInfo\": {}}").is_ok());
}

#[test]
fn signer_sentinel_fails_before_any_fetch() {
    // the signer answered with the unavailable sentinel: no fetch phase
    match on_sign_result("https://example.com/api", None) {
        ExecPhase::Failed { error: TikTokError::SignatureError } => (),
        _ => panic!("expected SignatureError"),
    }
    match parse_signature(None) {
        Err(TikTokError::SignatureError) => (),
        other => panic!("expected SignatureError, got {:?}", other),
    }
}

#[test]
fn malformed_signer_payloads_fail() {
    match parse_signature(Some("not json".to_string())) {
        Err(TikTokError::SignatureError) => (),
        other => panic!("expected SignatureError, got {:?}", other),
    }
    match parse_signature(Some("{\"other\": 1}".to_string())) {
        Err(TikTokError::SignatureError) => (),
        other => panic!("expected SignatureError, got {:?}", other),
    }
    let sig = parse_signature(Some("{\"X-Bogus\": \"abc123\"}".to_string())).unwrap();
    assert_eq!(sig, "abc123");
}

#[test]
fn granted_signature_reaches_fetch() {
    match on_sign_result("https://example.com/api?a=1", Some("{\"X-Bogus\": \"zz\"}".to_string()))
    {
        ExecPhase::Fetching { signed_url } => {
            assert_eq!(signed_url, "https://example.com/api?a=1&X-Bogus=zz");
        },
        _ => panic!("expected Fetching"),
    }
}

#[test]
fn signature_appending() {
    assert_eq!(append_signature("http://h/p", "s1"), "http://h/p?X-Bogus=s1");
    assert_eq!(append_signature("http://h/p?q=2", "s1"), "http://h/p?q=2&X-Bogus=s1");
    assert!(contains_char("a?b", '?'));
    assert!(!contains_char("ab", '?'));
}

#[test]
fn canonical_url_carries_parameters() {
    let pairs = vec![
        ("aid".to_string(), "".to_string()),
        ("keyword".to_string(), "two words".to_string()),
    ];
    let u = build_url("https://www.tiktok.com/api/search/", &pairs).unwrap();
    // the parameters really are appended, percent-encoded
    assert!(u != "https://www.tiktok.com/api/search/");
    assert!(u.contains("aid="));
    assert!(u.contains("keyword=two+words") || u.contains("keyword=two%20words"));

    match build_url("not a url", &pairs) {
        Err(TikTokError::InvalidUrl(_)) => (),
        other => panic!("expected InvalidUrl, got {:?}", other),
    }
}

#[test]
fn fetch_outcomes() {
    match on_fetch_result(None) {
        ExecPhase::Failed { error: TikTokError::EmptyResponse } => (),
        _ => panic!("expected EmptyResponse"),
    }
    match on_fetch_result(Some("".to_string())) {
        ExecPhase::Failed { error: TikTokError::EmptyResponse } => (),
        _ => panic!("expected EmptyResponse"),
    }
    match on_fetch_result(Some("{\"status_code\": 0}".to_string())) {
        ExecPhase::Finished { .. } => (),
        _ => panic!("expected Finished"),
    }
}

#[test]
fn request_starts_in_signing_phase() {
    let params = RequestParams::default();
    match start_request("https://www.tiktok.com/api/user/detail/", &params) {
        ExecPhase::Signing { url } => {
            assert!(url.starts_with("https://www.tiktok.com/api/user/detail/?"));
            assert!(url.contains("aid="));
        },
        _ => panic!("expected Signing"),
    }
    match start_request("::::", &params) {
        ExecPhase::Failed { error: TikTokError::InvalidUrl(_) } => (),
        _ => panic!("expected InvalidUrl"),
    }
}

#[test]
fn video_id_extraction() {
    let id = extract_video_id_from_url("https://www.tiktok.com/@someone/video/7041997751718137094")
        .unwrap();
    assert_eq!(id, "7041997751718137094");
    match extract_video_id_from_url("https://www.tiktok.com/@someone/profile") {
        Err(TikTokError::InvalidUrl(_)) => (),
        other => panic!("expected InvalidUrl, got {:?}", other),
    }
    match extract_video_id_from_url("not a url at all") {
        Err(TikTokError::InvalidUrl(_)) => (),
        other => panic!("expected InvalidUrl, got {:?}", other),
    }
}

use rust_tok::dec::{i64_to_dec, u64_to_dec};
use rust_tok::error::TikTokError;
use rust_tok::json::required_field;
use rust_tok::listing::{
    comment_replies_listing, download_url_of, search_listing, search_params, sound_videos_listing,
    trending_params, user_info_params, user_videos_listing, user_videos_params,
    video_comments_listing, SearchType,
};
use rust_tok::types::RequestParams;

#[test]
fn decimal_rendering() {
    assert_eq!(u64_to_dec(0), "0");
    assert_eq!(u64_to_dec(7), "7");
    assert_eq!(u64_to_dec(12345), "12345");
    assert_eq!(u64_to_dec(1000), "1000");
    assert_eq!(i64_to_dec(0), "0");
    assert_eq!(i64_to_dec(35), "35");
    assert_eq!(i64_to_dec(-7), "-7");
}

#[test]
fn default_params_send_all_fingerprint_fields() {
    let p = RequestParams::default();
    let pairs = p.to_pairs();
    assert_eq!(pairs.len(), 25);
    assert_eq!(pairs[0], ("aid".to_string(), "".to_string()));
    assert_eq!(pairs[24], ("webcast_language".to_string(), "".to_string()));
}

#[test]
fn set_fields_become_pairs_in_order() {
    let mut p = RequestParams::default();
    p.sec_uid = Some("SEC".to_string());
    p.cursor = Some("30".to_string());
    p.additional = vec![("extra".to_string(), "1".to_string())];
    let pairs = p.to_pairs();
    assert_eq!(pairs.len(), 28);
    assert_eq!(pairs[25], ("sec_uid".to_string(), "SEC".to_string()));
    assert_eq!(pairs[26], ("cursor".to_string(), "30".to_string()));
    assert_eq!(pairs[27], ("extra".to_string(), "1".to_string()));
}

#[test]
fn listing_tables() {
    let l = user_videos_listing();
    assert_eq!(l.endpoint, "https://www.tiktok.com/api/post/item_list/");
    assert_eq!(l.items_field, "itemList");
    assert_eq!(l.has_more_field, "hasMore");
    assert_eq!(l.cursor_field, "cursor");
    assert_eq!(l.page_cap, 35);

    let l = video_comments_listing();
    assert_eq!(l.items_field, "comments");
    assert_eq!(l.has_more_field, "has_more");
    assert_eq!(l.page_cap, 20);

    let l = comment_replies_listing();
    assert_eq!(l.endpoint, "https://www.tiktok.com/api/comment/list/reply/");

    let l = sound_videos_listing();
    assert_eq!(l.page_cap, 30);

    let l = search_listing(SearchType::User, 12);
    assert_eq!(l.endpoint, "https://www.tiktok.com/api/search/user/full/");
    assert_eq!(l.items_field, "user_list");
    assert_eq!(l.page_cap, 12);
    let l = search_listing(SearchType::Video, 12);
    assert_eq!(l.items_field, "item_list");
}

#[test]
fn operation_params() {
    let p = user_info_params("therock");
    assert_eq!(p.unique_id.as_deref(), Some("therock"));
    assert_eq!(p.sec_uid.as_deref(), Some(""));
    assert!(p.count.is_none());

    let p = user_videos_params("SEC", 35, 120);
    assert_eq!(p.sec_uid.as_deref(), Some("SEC"));
    assert_eq!(p.count.as_deref(), Some("35"));
    assert_eq!(p.cursor.as_deref(), Some("120"));

    let p = trending_params(16, 30);
    assert_eq!(p.from_page, "fyp");
    assert_eq!(p.count.as_deref(), Some("16"));
    assert_eq!(p.cursor.as_deref(), Some("30"));

    let p = search_params("cats", 12, 0);
    assert_eq!(p.from_page, "search");
    assert_eq!(p.keyword.as_deref(), Some("cats"));
    assert_eq!(p.count.as_deref(), Some("12"));
    assert_eq!(p.cursor.as_deref(), Some("0"));
    assert!(p.web_search_code.is_some());
}

#[test]
fn required_fields_and_not_found() {
    let doc: serde_json::Value =
        serde_json::from_str("{\"comment\": {\"cid\": \"1\"}}").unwrap();
    let inner = required_field(&doc, "comment").unwrap();
    assert_eq!(inner.get("cid").and_then(|v| v.as_str()), Some("1"));

    match required_field(&doc, "musicInfo") {
        Err(TikTokError::NotFound) => (),
        other => panic!("expected NotFound, got {:?}", other),
    }

    let null_doc: serde_json::Value =
        serde_json::from_str("{\"challengeInfo\": null}").unwrap();
    match required_field(&null_doc, "challengeInfo") {
        Err(TikTokError::NotFound) => (),
        other => panic!("expected NotFound, got {:?}", other),
    }
}

#[test]
fn download_address() {
    let doc: serde_json::Value = serde_json::from_str(
        "{\"video\": {\"downloadAddr\": \"https://cdn.example/v.mp4\"}}",
    )
    .unwrap();
    assert_eq!(download_url_of(&doc).unwrap(), "https://cdn.example/v.mp4");

    let empty: serde_json::Value = serde_json::from_str("{}").unwrap();
    match download_url_of(&empty) {
        Err(TikTokError::Other(_)) => (),
        other => panic!("expected Other, got {:?}", other),
    }
}

use vstd::prelude::*;
use crate::dec::{dec_digits, dec_text, i64_to_dec, u64_to_dec};
use crate::error::TikTokError;
use crate::json::{json_as_string, json_get};
use crate::types::RequestParams;

verus! {

/// What a search returns: people or videos.
#[derive(Debug, Clone, Copy, PartialEq, Eq, Structural)]
pub enum SearchType {
    User,
    Video,
}

/// Everything one cursor-paginated operation differs in: its endpoint, the
/// three field names its pages use, and the page-size ceiling the server
/// grants it.
pub struct ListingFields {
    pub endpoint: String,
    pub items_field: String,
    pub has_more_field: String,
    pub cursor_field: String,
    pub page_cap: usize,
}

/// The device-fingerprint fields all carry their default (empty) value and
/// no extra pairs ride along; from_page is stated per operation.
pub open spec fn fingerprint_clear(r: RequestParams) -> bool {
    &&& r.aid@.len() == 0
    &&& r.app_language@.len() == 0
    &&& r.app_name@.len() == 0
    &&& r.browser_language@.len() == 0
    &&& r.browser_name@.len() == 0
    &&& r.browser_online@.len() == 0
    &&& r.browser_platform@.len() == 0
    &&& r.browser_version@.len() == 0
    &&& r.channel@.len() == 0
    &&& r.cookie_enabled@.len() == 0
    &&& r.device_id@.len() == 0
    &&& r.device_platform@.len() == 0
    &&& r.focus_state@.len() == 0
    &&& r.history_len@.len() == 0
    &&& r.is_fullscreen@.len() == 0
    &&& r.is_page_visible@.len() == 0
    &&& r.os@.len() == 0
    &&& r.priority_region@.len() == 0
    &&& r.referer@.len() == 0
    &&& r.region@.len() == 0
    &&& r.screen_height@.len() == 0
    &&& r.screen_width@.len() == 0
    &&& r.tz_name@.len() == 0
    &&& r.webcast_language@.len() == 0
    &&& r.additional@.len() == 0
}

/// The parameters of one listing page: the operation's id field, the page
/// size actually granted for this round trip, and the cursor to resume at.
pub open spec fn page_fields(r: RequestParams, page_size: int, cursor: int) -> bool {
    &&& r.count matches Some(c) && c@ == dec_digits(page_size as nat)
    &&& r.cursor matches Some(c) && c@ == dec_text(cursor)
}

pub fn user_videos_listing() -> (r: ListingFields)
    ensures
        r.endpoint@ == "https://www.tiktok.com/api/post/item_list/"@,
        r.items_field@ == "itemList"@,
        r.has_more_field@ == "hasMore"@,
        r.cursor_field@ == "cursor"@,
        r.page_cap == 35,
{
    ListingFields {
        endpoint: String::from_str("https://www.tiktok.com/api/post/item_list/"),
        items_field: String::from_str("itemList"),
        has_more_field: String::from_str("hasMore"),
        cursor_field: String::from_str("cursor"),
        page_cap: 35,
    }
}

pub fn user_liked_videos_listing() -> (r: ListingFields)
    ensures
        r.endpoint@ == "https://www.tiktok.com/api/favorite/item_list"@,
        r.items_field@ == "itemList"@,
        r.has_more_field@ == "hasMore"@,
        r.cursor_field@ == "cursor"@,
        r.page_cap == 35,
{
    ListingFields {
        endpoint: String::from_str("https://www.tiktok.com/api/favorite/item_list"),
        items_field: String::from_str("itemList"),
        has_more_field: String::from_str("hasMore"),
        cursor_field: String::from_str("cursor"),
        page_cap: 35,
    }
}

pub fn hashtag_videos_listing() -> (r: ListingFields)
    ensures
        r.endpoint@ == "https://www.tiktok.com/api/challenge/item_list/"@,
        r.items_field@ == "itemList"@,
        r.has_more_field@ == "hasMore"@,
        r.cursor_field@ == "cursor"@,
        r.page_cap == 35,
{
    ListingFields {
        endpoint: String::from_str("https://www.tiktok.com/api/challenge/item_list/"),
        items_field: String::from_str("itemList"),
        has_more_field: String::from_str("hasMore"),
        cursor_field: String::from_str("cursor"),
        page_cap: 35,
    }
}

pub fn sound_videos_listing() -> (r: ListingFields)
    ensures
        r.endpoint@ == "https://www.tiktok.com/api/music/item_list/"@,
        r.items_field@ == "itemList"@,
        r.has_more_field@ == "hasMore"@,
        r.cursor_field@ == "cursor"@,
        r.page_cap == 30,
{
    ListingFields {
        endpoint: String::from_str("https://www.tiktok.com/api/music/item_list/"),
        items_field: String::from_str("itemList"),
        has_more_field: String::from_str("hasMore"),
        cursor_field: String::from_str("cursor"),
        page_cap: 30,
    }
}

pub fn video_comments_listing() -> (r: ListingFields)
    ensures
        r.endpoint@ == "https://www.tiktok.com/api/comment/list/"@,
        r.items_field@ == "comments"@,
        r.has_more_field@ == "has_more"@,
        r.cursor_field@ == "cursor"@,
        r.page_cap == 20,
{
    ListingFields {
        endpoint: String::from_str("https://www.tiktok.com/api/comment/list/"),
        items_field: String::from_str("comments"),
        has_more_field: String::from_str("has_more"),
        cursor_field: String::from_str("cursor"),
        page_cap: 20,
    }
}

pub fn comment_replies_listing() -> (r: ListingFields)
    ensures
        r.endpoint@ == "https://www.tiktok.com/api/comment/list/reply/"@,
        r.items_field@ == "comments"@,
        r.has_more_field@ == "has_more"@,
        r.cursor_field@ == "cursor"@,
        r.page_cap == 20,
{
    ListingFields {
        endpoint: String::from_str("https://www.tiktok.com/api/comment/list/reply/"),
        items_field: String::from_str("comments"),
        has_more_field: String::from_str("has_more"),
        cursor_field: String::from_str("cursor"),
        page_cap: 20,
    }
}

pub fn trending_videos_listing() -> (r: ListingFields)
    ensures
        r.endpoint@ == "https://www.tiktok.com/api/recommend/item_list/"@,
        r.items_field@ == "itemList"@,
        r.has_more_field@ == "hasMore"@,
        r.cursor_field@ == "cursor"@,
        r.page_cap == 35,
{
    ListingFields {
        endpoint: String::from_str("https://www.tiktok.com/api/recommend/item_list/"),
        items_field: String::from_str("itemList"),
        has_more_field: String::from_str("hasMore"),
        cursor_field: String::from_str("cursor"),
        page_cap: 35,
    }
}

/// The search listing; the page ceiling is caller-set for search.
pub fn search_listing(t: SearchType, cap: usize) -> (r: ListingFields)
    requires
        cap >= 1,
    ensures
        t == SearchType::User ==> r.endpoint@ == "https://www.tiktok.com/api/search/user/full/"@
            && r.items_field@ == "user_list"@,
        t == SearchType::Video ==> r.endpoint@ == "https://www.tiktok.com/api/search/video/full/"@
            && r.items_field@ == "item_list"@,
        r.has_more_field@ == "has_more"@,
        r.cursor_field@ == "cursor"@,
        r.page_cap == cap,
{
    match t {
        SearchType::User => ListingFields {
            endpoint: String::from_str("https://www.tiktok.com/api/search/user/full/"),
            items_field: String::from_str("user_list"),
            has_more_field: String::from_str("has_more"),
            cursor_field: String::from_str("cursor"),
            page_cap: cap,
        },
        SearchType::Video => ListingFields {
            endpoint: String::from_str("https://www.tiktok.com/api/search/video/full/"),
            items_field: String::from_str("item_list"),
            has_more_field: String::from_str("has_more"),
            cursor_field: String::from_str("cursor"),
            page_cap: cap,
        },
    }
}

pub fn user_detail_endpoint() -> (r: String)
    ensures
        r@ == "https://www.tiktok.com/api/user/detail/"@,
{
    String::from_str("https://www.tiktok.com/api/user/detail/")
}

pub fn video_detail_endpoint() -> (r: String)
    ensures
        r@ == "https://www.tiktok.com/api/item/detail/"@,
{
    String::from_str("https://www.tiktok.com/api/item/detail/")
}

pub fn comment_detail_endpoint() -> (r: String)
    ensures
        r@ == "https://www.tiktok.com/api/comment/detail/"@,
{
    String::from_str("https://www.tiktok.com/api/comment/detail/")
}

pub fn sound_detail_endpoint() -> (r: String)
    ensures
        r@ == "https://www.tiktok.com/api/music/detail/"@,
{
    String::from_str("https://www.tiktok.com/api/music/detail/")
}

pub fn hashtag_detail_endpoint() -> (r: String)
    ensures
        r@ == "https://www.tiktok.com/api/challenge/detail/"@,
{
    String::from_str("https://www.tiktok.com/api/challenge/detail/")
}

pub fn related_videos_endpoint() -> (r: String)
    ensures
        r@ == "https://www.tiktok.com/api/related/item_list/"@,
{
    String::from_str("https://www.tiktok.com/api/related/item_list/")
}

/// The single-entity user lookup goes by handle, with an empty secondary
/// id exactly as the service expects.
pub fn user_info_params(username: &str) -> (r: RequestParams)
    ensures
        fingerprint_clear(r),
        r.from_page@.len() == 0,
        r.sec_uid matches Some(s) && s@.len() == 0,
        r.unique_id matches Some(u) && u@ == username@,
        r.count is None,
        r.cursor is None,
        r.aweme_id is None,
        r.comment_id is None,
        r.music_id is None,
        r.challenge_id is None,
        r.challenge_name is None,
        r.item_id is None,
        r.keyword is None,
        r.web_search_code is None,
{
    let mut p = RequestParams::default();
    p.sec_uid = Some(String::new());
    p.unique_id = Some(username.to_owned());
    p
}

/// One page of a user's posted or liked videos.
pub fn user_videos_params(sec_uid: &str, page_size: usize, cursor: i64) -> (r: RequestParams)
    ensures
        fingerprint_clear(r),
        r.from_page@.len() == 0,
        r.sec_uid matches Some(s) && s@ == sec_uid@,
        page_fields(r, page_size as int, cursor as int),
        r.unique_id is None,
        r.aweme_id is None,
        r.comment_id is None,
        r.music_id is None,
        r.challenge_id is None,
        r.challenge_name is None,
        r.item_id is None,
        r.keyword is None,
        r.web_search_code is None,
{
    let mut p = RequestParams::default();
    p.sec_uid = Some(sec_uid.to_owned());
    p.count = Some(u64_to_dec(page_size as u64));
    p.cursor = Some(i64_to_dec(cursor));
    p
}

/// One page of a hashtag's videos.
pub fn hashtag_videos_params(challenge_id: &str, page_size: usize, cursor: i64) -> (r:
    RequestParams)
    ensures
        fingerprint_clear(r),
        r.from_page@.len() == 0,
        r.challenge_id matches Some(s) && s@ == challenge_id@,
        page_fields(r, page_size as int, cursor as int),
        r.sec_uid is None,
        r.unique_id is None,
        r.aweme_id is None,
        r.comment_id is None,
        r.music_id is None,
        r.challenge_name is None,
        r.item_id is None,
        r.keyword is None,
        r.web_search_code is None,
{
    let mut p = RequestParams::default();
    p.challenge_id = Some(challenge_id.to_owned());
    p.count = Some(u64_to_dec(page_size as u64));
    p.cursor = Some(i64_to_dec(cursor));
    p
}

/// One page of a sound's videos.
pub fn sound_videos_params(music_id: &str, page_size: usize, cursor: i64) -> (r: RequestParams)
    ensures
        fingerprint_clear(r),
        r.from_page@.len() == 0,
        r.music_id matches Some(s) && s@ == music_id@,
        page_fields(r, page_size as int, cursor as int),
        r.sec_uid is None,
        r.unique_id is None,
        r.aweme_id is None,
        r.comment_id is None,
        r.challenge_id is None,
        r.challenge_name is None,
        r.item_id is None,
        r.keyword is None,
        r.web_search_code is None,
{
    let mut p = RequestParams::default();
    p.music_id = Some(music_id.to_owned());
    p.count = Some(u64_to_dec(page_size as u64));
    p.cursor = Some(i64_to_dec(cursor));
    p
}

/// One page of a video's comments.
pub fn video_comments_params(aweme_id: &str, page_size: usize, cursor: i64) -> (r: RequestParams)
    ensures
        fingerprint_clear(r),
        r.from_page@.len() == 0,
        r.aweme_id matches Some(s) && s@ == aweme_id@,
        page_fields(r, page_size as int, cursor as int),
        r.sec_uid is None,
        r.unique_id is None,
        r.comment_id is None,
        r.music_id is None,
        r.challenge_id is None,
        r.challenge_name is None,
        r.item_id is None,
        r.keyword is None,
        r.web_search_code is None,
{
    let mut p = RequestParams::default();
    p.aweme_id = Some(aweme_id.to_owned());
    p.count = Some(u64_to_dec(page_size as u64));
    p.cursor = Some(i64_to_dec(cursor));
    p
}

/// One page of a comment's replies.
pub fn comment_replies_params(comment_id: &str, page_size: usize, cursor: i64) -> (r:
    RequestParams)
    ensures
        fingerprint_clear(r),
        r.from_page@.len() == 0,
        r.comment_id matches Some(s) && s@ == comment_id@,
        page_fields(r, page_size as int, cursor as int),
        r.sec_uid is None,
        r.unique_id is None,
        r.aweme_id is None,
        r.music_id is None,
        r.challenge_id is None,
        r.challenge_name is None,
        r.item_id is None,
        r.keyword is None,
        r.web_search_code is None,
{
    let mut p = RequestParams::default();
    p.comment_id = Some(comment_id.to_owned());
    p.count = Some(u64_to_dec(page_size as u64));
    p.cursor = Some(i64_to_dec(cursor));
    p
}

/// One trending page, asked from the recommendation feed: like every
/// other listing it requests only the granted page size and resumes from
/// the cursor of the page before.
pub fn trending_params(page_size: usize, cursor: i64) -> (r: RequestParams)
    ensures
        fingerprint_clear(r),
        r.from_page@ == "fyp"@,
        page_fields(r, page_size as int, cursor as int),
        r.sec_uid is None,
        r.unique_id is None,
        r.aweme_id is None,
        r.comment_id is None,
        r.music_id is None,
        r.challenge_id is None,
        r.challenge_name is None,
        r.item_id is None,
        r.keyword is None,
        r.web_search_code is None,
{
    let mut p = RequestParams::default();
    p.from_page = String::from_str("fyp");
    p.count = Some(u64_to_dec(page_size as u64));
    p.cursor = Some(i64_to_dec(cursor));
    p
}

/// One search page: the query, the granted page size, the cursor to
/// resume at, and the search feature flags the service expects.
pub fn search_params(keyword: &str, page_size: usize, cursor: i64) -> (r: RequestParams)
    ensures
        fingerprint_clear(r),
        r.from_page@ == "search"@,
        r.keyword matches Some(k) && k@ == keyword@,
        page_fields(r, page_size as int, cursor as int),
        r.web_search_code is Some,
        r.sec_uid is None,
        r.unique_id is None,
        r.aweme_id is None,
        r.comment_id is None,
        r.music_id is None,
        r.challenge_id is None,
        r.challenge_name is None,
        r.item_id is None,
{
    let mut p = RequestParams::default();
    p.from_page = String::from_str("search");
    p.keyword = Some(keyword.to_owned());
    p.count = Some(u64_to_dec(page_size as u64));
    p.cursor = Some(i64_to_dec(cursor));
    p.web_search_code = Some(
        String::from_str(
            "{\"tiktok\":{\"client_params_x\":{\"search_engine\":{\"ies_mt_user_live_video_card_use_libra\":1,\"mt_search_general_user_live_card\":1}},\"search_server\":{}}}",
        ),
    );
    p
}

/// The single-entity video lookup.
pub fn video_info_params(aweme_id: &str) -> (r: RequestParams)
    ensures
        fingerprint_clear(r),
        r.from_page@.len() == 0,
        r.aweme_id matches Some(s) && s@ == aweme_id@,
        no_op_fields_except_aweme(r),
{
    let mut p = RequestParams::default();
    p.aweme_id = Some(aweme_id.to_owned());
    p
}

/// Every operation field but the video id is unset.
pub open spec fn no_op_fields_except_aweme(r: RequestParams) -> bool {
    &&& r.sec_uid is None
    &&& r.unique_id is None
    &&& r.count is None
    &&& r.cursor is None
    &&& r.comment_id is None
    &&& r.music_id is None
    &&& r.challenge_id is None
    &&& r.challenge_name is None
    &&& r.item_id is None
    &&& r.keyword is None
    &&& r.web_search_code is None
}

/// The single-entity comment lookup.
pub fn comment_info_params(comment_id: &str) -> (r: RequestParams)
    ensures
        fingerprint_clear(r),
        r.from_page@.len() == 0,
        r.comment_id matches Some(s) && s@ == comment_id@,
        r.sec_uid is None,
        r.unique_id is None,
        r.count is None,
        r.cursor is None,
        r.aweme_id is None,
        r.music_id is None,
        r.challenge_id is None,
        r.challenge_name is None,
        r.item_id is None,
        r.keyword is None,
        r.web_search_code is None,
{
    let mut p = RequestParams::default();
    p.comment_id = Some(comment_id.to_owned());
    p
}

/// The single-entity sound lookup.
pub fn sound_info_params(music_id: &str) -> (r: RequestParams)
    ensures
        fingerprint_clear(r),
        r.from_page@.len() == 0,
        r.music_id matches Some(s) && s@ == music_id@,
        r.sec_uid is None,
        r.unique_id is None,
        r.count is None,
        r.cursor is None,
        r.aweme_id is None,
        r.comment_id is None,
        r.challenge_id is None,
        r.challenge_name is None,
        r.item_id is None,
        r.keyword is None,
        r.web_search_code is None,
{
    let mut p = RequestParams::default();
    p.music_id = Some(music_id.to_owned());
    p
}

/// The single-entity hashtag lookup goes by name.
pub fn hashtag_info_params(name: &str) -> (r: RequestParams)
    ensures
        fingerprint_clear(r),
        r.from_page@.len() == 0,
        r.challenge_name matches Some(s) && s@ == name@,
        r.sec_uid is None,
        r.unique_id is None,
        r.count is None,
        r.cursor is None,
        r.aweme_id is None,
        r.comment_id is None,
        r.music_id is None,
        r.challenge_id is None,
        r.item_id is None,
        r.keyword is None,
        r.web_search_code is None,
{
    let mut p = RequestParams::default();
    p.challenge_name = Some(name.to_owned());
    p
}

/// Related videos come in one round trip with the wanted count.
pub fn related_videos_params(aweme_id: &str, count: usize) -> (r: RequestParams)
    ensures
        fingerprint_clear(r),
        r.from_page@.len() == 0,
        r.aweme_id matches Some(s) && s@ == aweme_id@,
        r.count matches Some(c) && c@ == dec_digits(count as nat),
        r.sec_uid is None,
        r.unique_id is None,
        r.cursor is None,
        r.comment_id is None,
        r.music_id is None,
        r.challenge_id is None,
        r.challenge_name is None,
        r.item_id is None,
        r.keyword is None,
        r.web_search_code is None,
{
    let mut p = RequestParams::default();
    p.aweme_id = Some(aweme_id.to_owned());
    p.count = Some(u64_to_dec(count as u64));
    p
}

/// The media address of a video, read out of its raw document; absent
/// addresses are reported like the original message.
pub fn download_url_of(raw: &serde_json::Value) -> (r: Result<String, TikTokError>)
    ensures
        r is Ok || (r matches Err(e) && e is Other),
{
    match json_get(raw, "video") {
        None => Err(TikTokError::Other(String::from_str("No download URL found"))),
        Some(v) => match json_get(v, "downloadAddr") {
            None => Err(TikTokError::Other(String::from_str("No download URL found"))),
            Some(a) => match json_as_string(a) {
                None => Err(TikTokError::Other(String::from_str("No download URL found"))),
                Some(s) => Ok(s),
            },
        },
    }
}

} // verus!

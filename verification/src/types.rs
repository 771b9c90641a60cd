use vstd::prelude::*;
use std::collections::HashMap;

verus! {

/// Fixed identity of one session, chosen when the session is created and
/// never changed afterwards; a session that needs a new identity is
/// destroyed and replaced.
#[derive(Debug, Clone)]
pub struct SessionConfig {
    pub user_agent: Option<String>,
    pub language: String,
    pub platform: String,
    pub timezone: String,
    pub screen_width: u32,
    pub screen_height: u32,
    pub ms_token: Option<String>,
    pub proxy: Option<String>,
    pub cookies: Option<HashMap<String, String>>,
}

/// Client-wide configuration, consumed once when the session pool is
/// brought up.
#[derive(Debug, Clone)]
pub struct TikTokApiConfig {
    pub num_sessions: usize,
    pub headless: bool,
    pub ms_tokens: Option<Vec<String>>,
    pub proxies: Option<Vec<String>>,
    pub base_url: String,
    pub browser_args: Option<Vec<String>>,
}

impl Default for TikTokApiConfig {
    fn default() -> (r: Self)
        ensures
            r.num_sessions == 5,
            r.headless,
            r.ms_tokens is None,
            r.proxies is None,
            r.base_url@ == "https://www.tiktok.com"@,
            r.browser_args is None,
    {
        TikTokApiConfig {
            num_sessions: 5,
            headless: true,
            ms_tokens: None,
            proxies: None,
            base_url: String::from_str("https://www.tiktok.com"),
            browser_args: None,
        }
    }
}

/// Counters attached to a video.
#[derive(Debug, Clone, Copy, PartialEq, Eq, Structural)]
pub struct VideoStats {
    pub likes: i64,
    pub shares: i64,
    pub comments: i64,
    pub plays: i64,
}

/// A user, as decoded from a response; raw_data keeps the whole document
/// for fields the typed part does not model.
#[derive(Debug)]
pub struct UserProfile {
    pub user_id: String,
    pub sec_uid: String,
    pub username: String,
    pub raw_data: serde_json::Value,
}

/// A video; create_time is kept as seconds since the Unix epoch.
#[derive(Debug)]
pub struct Video {
    pub id: String,
    pub url: Option<String>,
    pub create_time: Option<i64>,
    pub stats: Option<VideoStats>,
    pub author: Option<UserProfile>,
    pub raw_data: serde_json::Value,
}

/// A comment under a video.
#[derive(Debug)]
pub struct Comment {
    pub id: String,
    pub text: String,
    pub author: UserProfile,
    pub likes_count: i64,
    pub raw_data: serde_json::Value,
}

/// A hashtag (challenge).
#[derive(Debug)]
pub struct Hashtag {
    pub id: Option<String>,
    pub name: Option<String>,
    pub raw_data: serde_json::Value,
}

/// A sound (music track).
#[derive(Debug)]
pub struct Sound {
    pub id: String,
    pub title: Option<String>,
    pub duration: Option<i32>,
    pub original: Option<bool>,
    pub author: Option<UserProfile>,
    pub raw_data: serde_json::Value,
}

/// One request's query parameters: the constant device-fingerprint fields,
/// the operation-specific fields, and free-form extra pairs. Built fresh
/// for every round trip and never mutated after construction.
#[derive(Debug, Clone)]
pub struct RequestParams {
    pub aid: String,
    pub app_language: String,
    pub app_name: String,
    pub browser_language: String,
    pub browser_name: String,
    pub browser_online: String,
    pub browser_platform: String,
    pub browser_version: String,
    pub channel: String,
    pub cookie_enabled: String,
    pub device_id: String,
    pub device_platform: String,
    pub focus_state: String,
    pub from_page: String,
    pub history_len: String,
    pub is_fullscreen: String,
    pub is_page_visible: String,
    pub os: String,
    pub priority_region: String,
    pub referer: String,
    pub region: String,
    pub screen_height: String,
    pub screen_width: String,
    pub tz_name: String,
    pub webcast_language: String,
    pub sec_uid: Option<String>,
    pub unique_id: Option<String>,
    pub count: Option<String>,
    pub cursor: Option<String>,
    pub aweme_id: Option<String>,
    pub comment_id: Option<String>,
    pub music_id: Option<String>,
    pub challenge_id: Option<String>,
    pub challenge_name: Option<String>,
    pub item_id: Option<String>,
    pub keyword: Option<String>,
    pub web_search_code: Option<String>,
    pub additional: Vec<(String, String)>,
}

/// The query pair an optional field contributes: one pair when the field
/// is set, nothing when it is not.
pub open spec fn opt_pair(name: Seq<char>, v: Option<String>) -> Seq<(Seq<char>, Seq<char>)> {
    match v {
        Some(s) => seq![(name, s@)],
        None => Seq::empty(),
    }
}

impl RequestParams {
    /// The fingerprint fields, in the fixed order they are sent.
    pub open spec fn base_pairs_view(self) -> Seq<(Seq<char>, Seq<char>)> {
        seq![
            ("aid"@, self.aid@),
            ("app_language"@, self.app_language@),
            ("app_name"@, self.app_name@),
            ("browser_language"@, self.browser_language@),
            ("browser_name"@, self.browser_name@),
            ("browser_online"@, self.browser_online@),
            ("browser_platform"@, self.browser_platform@),
            ("browser_version"@, self.browser_version@),
            ("channel"@, self.channel@),
            ("cookie_enabled"@, self.cookie_enabled@),
            ("device_id"@, self.device_id@),
            ("device_platform"@, self.device_platform@),
            ("focus_state"@, self.focus_state@),
            ("from_page"@, self.from_page@),
            ("history_len"@, self.history_len@),
            ("is_fullscreen"@, self.is_fullscreen@),
            ("is_page_visible"@, self.is_page_visible@),
            ("os"@, self.os@),
            ("priority_region"@, self.priority_region@),
            ("referer"@, self.referer@),
            ("region"@, self.region@),
            ("screen_height"@, self.screen_height@),
            ("screen_width"@, self.screen_width@),
            ("tz_name"@, self.tz_name@),
            ("webcast_language"@, self.webcast_language@),
        ]
    }

    /// Every query pair this parameter set stands for: the fingerprint
    /// fields, then each operation field that is set, then the extras.
    pub open spec fn pairs_view(self) -> Seq<(Seq<char>, Seq<char>)> {
        self.base_pairs_view() + opt_pair("sec_uid"@, self.sec_uid) + opt_pair(
            "unique_id"@,
            self.unique_id,
        ) + opt_pair("count"@, self.count) + opt_pair("cursor"@, self.cursor) + opt_pair(
            "aweme_id"@,
            self.aweme_id,
        ) + opt_pair("comment_id"@, self.comment_id) + opt_pair("music_id"@, self.music_id)
            + opt_pair("challenge_id"@, self.challenge_id) + opt_pair(
            "challenge_name"@,
            self.challenge_name,
        ) + opt_pair("item_id"@, self.item_id) + opt_pair("keyword"@, self.keyword) + opt_pair(
            "web_search_code"@,
            self.web_search_code,
        ) + self.additional.deep_view()
    }

    /// A parameter set with every field unset: fingerprint fields empty,
    /// no operation fields, no extras.
    pub open spec fn is_default(self) -> bool {
        &&& self.aid@ == Seq::<char>::empty()
        &&& self.app_language@ == Seq::<char>::empty()
        &&& self.app_name@ == Seq::<char>::empty()
        &&& self.browser_language@ == Seq::<char>::empty()
        &&& self.browser_name@ == Seq::<char>::empty()
        &&& self.browser_online@ == Seq::<char>::empty()
        &&& self.browser_platform@ == Seq::<char>::empty()
        &&& self.browser_version@ == Seq::<char>::empty()
        &&& self.channel@ == Seq::<char>::empty()
        &&& self.cookie_enabled@ == Seq::<char>::empty()
        &&& self.device_id@ == Seq::<char>::empty()
        &&& self.device_platform@ == Seq::<char>::empty()
        &&& self.focus_state@ == Seq::<char>::empty()
        &&& self.from_page@ == Seq::<char>::empty()
        &&& self.history_len@ == Seq::<char>::empty()
        &&& self.is_fullscreen@ == Seq::<char>::empty()
        &&& self.is_page_visible@ == Seq::<char>::empty()
        &&& self.os@ == Seq::<char>::empty()
        &&& self.priority_region@ == Seq::<char>::empty()
        &&& self.referer@ == Seq::<char>::empty()
        &&& self.region@ == Seq::<char>::empty()
        &&& self.screen_height@ == Seq::<char>::empty()
        &&& self.screen_width@ == Seq::<char>::empty()
        &&& self.tz_name@ == Seq::<char>::empty()
        &&& self.webcast_language@ == Seq::<char>::empty()
        &&& self.sec_uid is None
        &&& self.unique_id is None
        &&& self.count is None
        &&& self.cursor is None
        &&& self.aweme_id is None
        &&& self.comment_id is None
        &&& self.music_id is None
        &&& self.challenge_id is None
        &&& self.challenge_name is None
        &&& self.item_id is None
        &&& self.keyword is None
        &&& self.web_search_code is None
        &&& self.additional@ == Seq::<(String, String)>::empty()
    }

    /// Every query pair of this parameter set, in order: the fingerprint
    /// fields, the operation fields that are set, the extras.
    pub fn to_pairs(&self) -> (r: Vec<(String, String)>)
        ensures
            r.deep_view() == self.pairs_view(),
    {
        let mut out: Vec<(String, String)> = Vec::new();
        push_pair(&mut out, "aid", &self.aid);
        push_pair(&mut out, "app_language", &self.app_language);
        push_pair(&mut out, "app_name", &self.app_name);
        push_pair(&mut out, "browser_language", &self.browser_language);
        push_pair(&mut out, "browser_name", &self.browser_name);
        push_pair(&mut out, "browser_online", &self.browser_online);
        push_pair(&mut out, "browser_platform", &self.browser_platform);
        push_pair(&mut out, "browser_version", &self.browser_version);
        push_pair(&mut out, "channel", &self.channel);
        push_pair(&mut out, "cookie_enabled", &self.cookie_enabled);
        push_pair(&mut out, "device_id", &self.device_id);
        push_pair(&mut out, "device_platform", &self.device_platform);
        push_pair(&mut out, "focus_state", &self.focus_state);
        push_pair(&mut out, "from_page", &self.from_page);
        push_pair(&mut out, "history_len", &self.history_len);
        push_pair(&mut out, "is_fullscreen", &self.is_fullscreen);
        push_pair(&mut out, "is_page_visible", &self.is_page_visible);
        push_pair(&mut out, "os", &self.os);
        push_pair(&mut out, "priority_region", &self.priority_region);
        push_pair(&mut out, "referer", &self.referer);
        push_pair(&mut out, "region", &self.region);
        push_pair(&mut out, "screen_height", &self.screen_height);
        push_pair(&mut out, "screen_width", &self.screen_width);
        push_pair(&mut out, "tz_name", &self.tz_name);
        push_pair(&mut out, "webcast_language", &self.webcast_language);
        assert(out.deep_view() =~~= self.base_pairs_view());
        push_opt(&mut out, "sec_uid", &self.sec_uid);
        push_opt(&mut out, "unique_id", &self.unique_id);
        push_opt(&mut out, "count", &self.count);
        push_opt(&mut out, "cursor", &self.cursor);
        push_opt(&mut out, "aweme_id", &self.aweme_id);
        push_opt(&mut out, "comment_id", &self.comment_id);
        push_opt(&mut out, "music_id", &self.music_id);
        push_opt(&mut out, "challenge_id", &self.challenge_id);
        push_opt(&mut out, "challenge_name", &self.challenge_name);
        push_opt(&mut out, "item_id", &self.item_id);
        push_opt(&mut out, "keyword", &self.keyword);
        push_opt(&mut out, "web_search_code", &self.web_search_code);
        let ghost mid = out.deep_view();
        let mut i: usize = 0;
        while i < self.additional.len()
            invariant
                i <= self.additional.len(),
                out.deep_view() == mid + self.additional.deep_view().take(i as int),
            decreases self.additional.len() - i,
        {
            let ghost prev = out.deep_view();
            let p = (self.additional[i].0.clone(), self.additional[i].1.clone());
            proof {
                assert(p.deep_view() == self.additional.deep_view()[i as int]);
            }
            out.push(p);
            proof {
                assert(out.deep_view() =~~= prev.push(p.deep_view()));
                assert(out.deep_view() =~~= mid + self.additional.deep_view().take(i as int + 1));
            }
            i = i + 1;
        }
        proof {
            assert(self.additional.deep_view().take(self.additional@.len() as int)
                =~~= self.additional.deep_view());
            assert(out.deep_view() =~~= self.pairs_view());
        }
        out
    }
}

impl Default for RequestParams {
    fn default() -> (r: Self)
        ensures
            r.is_default(),
    {
        RequestParams {
            aid: String::new(),
            app_language: String::new(),
            app_name: String::new(),
            browser_language: String::new(),
            browser_name: String::new(),
            browser_online: String::new(),
            browser_platform: String::new(),
            browser_version: String::new(),
            channel: String::new(),
            cookie_enabled: String::new(),
            device_id: String::new(),
            device_platform: String::new(),
            focus_state: String::new(),
            from_page: String::new(),
            history_len: String::new(),
            is_fullscreen: String::new(),
            is_page_visible: String::new(),
            os: String::new(),
            priority_region: String::new(),
            referer: String::new(),
            region: String::new(),
            screen_height: String::new(),
            screen_width: String::new(),
            tz_name: String::new(),
            webcast_language: String::new(),
            sec_uid: None,
            unique_id: None,
            count: None,
            cursor: None,
            aweme_id: None,
            comment_id: None,
            music_id: None,
            challenge_id: None,
            challenge_name: None,
            item_id: None,
            keyword: None,
            web_search_code: None,
            additional: Vec::new(),
        }
    }
}

/// Appends one query pair.
fn push_pair(out: &mut Vec<(String, String)>, name: &str, val: &String)
    ensures
        final(out).deep_view() == old(out).deep_view().push((name@, val@)),
{
    out.push((name.to_owned(), val.clone()));
    proof {
        assert(out.deep_view() =~~= old(out).deep_view().push((name@, val@)));
    }
}

/// Appends the pair of an optional field, when the field is set.
fn push_opt(out: &mut Vec<(String, String)>, name: &str, val: &Option<String>)
    ensures
        final(out).deep_view() == old(out).deep_view() + opt_pair(name@, *val),
{
    match val {
        Some(s) => {
            out.push((name.to_owned(), s.clone()));
            proof {
                assert(out.deep_view() =~~= old(out).deep_view() + opt_pair(name@, *val));
            }
        },
        None => {
            proof {
                assert(out.deep_view() =~~= old(out).deep_view() + opt_pair(name@, *val));
            }
        },
    }
}

} // verus!

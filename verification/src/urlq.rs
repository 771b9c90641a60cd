use vstd::prelude::*;
use vstd::string::StrSliceExecFns;
use vstd::string::StringExecFns;
use crate::error::TikTokError;

verus! {

/// Whether the URL library accepts the text as an absolute URL. Names the
/// success of url::Url::parse, which depends on the text alone.
pub uninterp spec fn url_parses(s: Seq<char>) -> bool;

/// The text of a parsed URL rendered back out (the library normalizes
/// while parsing). Names url::Url::as_str after url::Url::parse; a
/// function of the text alone.
pub uninterp spec fn rendered_of(s: Seq<char>) -> Seq<char>;

/// The rendered URL after one percent-encoded query pair is appended to
/// the given URL text. Names the composition of url::Url::parse,
/// query_pairs_mut().append_pair and as_str; a function of the three
/// texts alone.
pub uninterp spec fn with_pair_of(u: Seq<char>, key: Seq<char>, value: Seq<char>) -> Seq<char>;

/// The slash-separated path segments of the URL text, None when the text
/// does not parse or the URL cannot be a base. Names url::Url::parse
/// followed by path_segments; a function of the text alone.
pub uninterp spec fn path_segments_of(s: Seq<char>) -> Option<Seq<Seq<char>>>;

/// Relies on url::Url::parse and as_str: the normalized rendering of the
/// text when it parses as an absolute URL. A rendered URL parses again to
/// the same URL (the library documents the round trip), so the result
/// parses too.
#[verifier::external_body]
pub(crate) fn render_parsed(s: &str) -> (r: Option<String>)
    ensures
        r is Some <==> url_parses(s@),
        r matches Some(t) ==> t@ == rendered_of(s@) && url_parses(t@),
{
    url::Url::parse(s).ok().map(|u| u.as_str().to_string())
}

/// Relies on url::Url::parse, query_pairs_mut().append_pair and as_str:
/// the URL text with one more percent-encoded query pair, when the text
/// parses. The appended form still parses.
#[verifier::external_body]
pub(crate) fn add_pair_text(u: &str, key: &str, value: &str) -> (r: Option<String>)
    ensures
        r is Some <==> url_parses(u@),
        r matches Some(t) ==> t@ == with_pair_of(u@, key@, value@) && url_parses(t@),
{
    url::Url::parse(u).ok().map(|mut parsed| {
        parsed.query_pairs_mut().append_pair(key, value);
        parsed.as_str().to_string()
    })
}

/// Relies on url::Url::parse and path_segments: the path segments of the
/// URL text, each as its own string.
#[verifier::external_body]
pub(crate) fn path_segments_of_text(s: &str) -> (r: Option<Vec<String>>)
    ensures
        match path_segments_of(s@) {
            Some(segs) => r matches Some(v) && v.deep_view() == segs,
            None => r is None,
        },
{
    url::Url::parse(s).ok().and_then(|u| {
        u.path_segments().map(|segs| segs.map(|x| x.to_string()).collect())
    })
}

/// The canonical text after the endpoint is rendered and every pair is
/// appended in order.
pub open spec fn canonical_of(base: Seq<char>, pairs: Seq<(Seq<char>, Seq<char>)>) -> Seq<char> {
    with_pairs_of(rendered_of(base), pairs)
}

/// Appends each pair in turn to the running URL text.
pub open spec fn with_pairs_of(u: Seq<char>, pairs: Seq<(Seq<char>, Seq<char>)>) -> Seq<char>
    decreases pairs.len(),
{
    if pairs.len() == 0 {
        u
    } else {
        with_pairs_of(with_pair_of(u, pairs[0].0, pairs[0].1), pairs.skip(1))
    }
}

/// The canonical URL of one round trip: the endpoint with every parameter
/// appended as a query pair, each percent-encoded by the URL library. It
/// succeeds exactly when the endpoint parses; a malformed endpoint is
/// rejected as InvalidUrl before any signing or network activity.
pub fn build_url(endpoint: &str, pairs: &Vec<(String, String)>) -> (r: Result<String, TikTokError>)
    ensures
        r is Ok <==> url_parses(endpoint@),
        r matches Ok(t) ==> t@ == canonical_of(endpoint@, pairs.deep_view()),
        r matches Err(e) ==> e is InvalidUrl,
{
    let mut cur = match render_parsed(endpoint) {
        Some(t) => t,
        None => {
            return Err(TikTokError::InvalidUrl(String::from_str("relative URL without a base")));
        },
    };
    let ghost all = pairs.deep_view();
    proof {
        assert(all.skip(0) =~= all);
    }
    let mut i: usize = 0;
    while i < pairs.len()
        invariant
            i <= pairs@.len(),
            all == pairs.deep_view(),
            url_parses(cur@),
            with_pairs_of(cur@, all.skip(i as int)) == with_pairs_of(rendered_of(endpoint@), all),
        decreases pairs@.len() - i,
    {
        let ghost prev = cur@;
        let next = match add_pair_text(cur.as_str(), pairs[i].0.as_str(), pairs[i].1.as_str()) {
            Some(t) => t,
            None => {
                proof {
                    assert(false);
                }
                return Err(TikTokError::InvalidUrl(String::new()));
            },
        };
        cur = next;
        proof {
            assert(all.skip(i as int)[0] == all[i as int]);
            assert(all[i as int] == (pairs@[i as int].0@, pairs@[i as int].1@));
            assert(cur@ == with_pair_of(prev, all.skip(i as int)[0].0, all.skip(i as int)[0].1));
            assert(all.skip(i as int).skip(1) =~= all.skip(i as int + 1));
            assert(with_pairs_of(prev, all.skip(i as int)) == with_pairs_of(
                cur@,
                all.skip(i as int + 1),
            ));
        }
        i = i + 1;
    }
    proof {
        assert(all.skip(pairs@.len() as int) =~= Seq::<(Seq<char>, Seq<char>)>::empty());
        assert(with_pairs_of(cur@, all.skip(pairs@.len() as int)) == cur@);
    }
    Ok(cur)
}

/// Whether the character occurs in the text.
pub fn contains_char(s: &str, c: char) -> (r: bool)
    ensures
        r == s@.contains(c),
{
    let len = s.unicode_len();
    let mut i: usize = 0;
    while i < len
        invariant
            i <= len,
            len == s@.len(),
            forall|j: int| 0 <= j < i ==> s@[j] != c,
        decreases len - i,
    {
        if s.get_char(i) == c {
            proof {
                assert(s@[i as int] == c);
            }
            return true;
        }
        i = i + 1;
    }
    false
}

/// The signed request URL: the canonical URL with the freshly obtained
/// signature appended as the last query parameter.
pub fn append_signature(url: &str, signature: &str) -> (r: String)
    ensures
        r@ == url@ + (if url@.contains('?') {
            "&"@
        } else {
            "?"@
        }) + "X-Bogus="@ + signature@,
{
    let mut out = String::from_str(url);
    if contains_char(url, '?') {
        out.append("&");
    } else {
        out.append("?");
    }
    out.append("X-Bogus=");
    out.append(signature);
    out
}

/// A share URL whose path reads @user, "video", id — the id is the third
/// path segment.
pub open spec fn video_id_shape(s: Seq<char>) -> bool {
    match path_segments_of(s) {
        Some(segs) => segs.len() >= 3 && segs[1] == "video"@,
        None => false,
    }
}

/// The video id in a share URL of the form https://host/@user/video/id:
/// Ok with the third path segment exactly when the URL parses and its
/// second segment is "video"; anything else is InvalidUrl, reported before
/// any network activity.
pub fn extract_video_id_from_url(url: &str) -> (r: Result<String, TikTokError>)
    ensures
        r is Ok <==> video_id_shape(url@),
        r matches Ok(id) ==> id@ == path_segments_of(url@).unwrap()[2],
        r matches Err(e) ==> e is InvalidUrl,
{
    let segs = match path_segments_of_text(url) {
        Some(s) => s,
        None => {
            return Err(TikTokError::InvalidUrl(String::from_str("URL format not supported")));
        },
    };
    if segs.len() >= 3 {
        let marker = String::from_str("video");
        if segs[1].eq(&marker) {
            proof {
                assert(segs.deep_view()[1] == segs@[1]@);
                assert(segs.deep_view()[2] == segs@[2]@);
            }
            return Ok(segs[2].clone());
        }
    }
    Err(TikTokError::InvalidUrl(String::from_str("URL format not supported")))
}

} // verus!

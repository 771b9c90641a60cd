use vstd::prelude::*;
use crate::error::TikTokError;
use crate::json::{parse_with_status, parses_as_json, top_status_of, xbogus_from_reply, xbogus_of};
use crate::types::RequestParams;
use crate::urlq::{append_signature, build_url, canonical_of, url_parses};

verus! {

/// Where one authenticated round trip stands. The driver performs each
/// named action through the leased session's script evaluator and feeds
/// the outcome back; every transition below is pure and verified, so the
/// protocol — canonicalize, sign, fetch, validate — cannot be reordered
/// or skipped.
pub enum ExecPhase {
    /// The canonical URL is built; the signer must be invoked on it.
    Signing { url: String },
    /// A signature is in hand; the signed URL must be fetched.
    Fetching { signed_url: String },
    /// The response was validated; the parsed document is the result.
    Finished { body: serde_json::Value },
    /// The round trip failed; nothing further may be attempted.
    Failed { error: TikTokError },
}

/// Starts a round trip: exactly when the endpoint parses, the phase is
/// Signing and carries the endpoint's canonical text with every parameter
/// appended as a query pair; a malformed endpoint fails as InvalidUrl
/// before any signing or network activity.
pub fn start_request(endpoint: &str, params: &RequestParams) -> (r: ExecPhase)
    ensures
        r is Signing <==> url_parses(endpoint@),
        r matches ExecPhase::Signing { url } ==> url@ == canonical_of(
            endpoint@,
            params.pairs_view(),
        ),
        !(r is Signing) ==> (r matches ExecPhase::Failed { error } && error is InvalidUrl),
{
    let pairs = params.to_pairs();
    match build_url(endpoint, &pairs) {
        Ok(u) => ExecPhase::Signing { url: u },
        Err(e) => ExecPhase::Failed { error: e },
    }
}

/// The signature out of the signer's reply: the X-Bogus string field of
/// the JSON payload it returned, exactly when the reply carries one. The
/// unavailable sentinel (no string came back at all) and every malformed
/// payload are SignatureError — the session is in an unrecoverable state
/// and the attempt is not retried.
pub fn parse_signature(raw: Option<String>) -> (r: Result<String, TikTokError>)
    ensures
        raw is None ==> r == Err::<String, TikTokError>(TikTokError::SignatureError),
        raw matches Some(s) ==> match xbogus_of(s@) {
            Some(sig) => r matches Ok(t) && t@ == sig,
            None => r == Err::<String, TikTokError>(TikTokError::SignatureError),
        },
{
    match raw {
        None => Err(TikTokError::SignatureError),
        Some(s) => match xbogus_from_reply(s.as_str()) {
            Some(sig) => Ok(sig),
            None => Err(TikTokError::SignatureError),
        },
    }
}

/// The signed URL is the signed-over URL itself with the signature hung on
/// as the last query parameter.
pub open spec fn signed_with(signed: Seq<char>, url: Seq<char>, sig: Seq<char>) -> bool {
    signed == url + (if url.contains('?') {
        "&"@
    } else {
        "?"@
    }) + "X-Bogus="@ + sig
}

/// Folds the signer's reply into the round trip. The fetch is owed exactly
/// when the reply carries an X-Bogus string: that signature is appended to
/// the exact URL that was signed. The unavailable sentinel and every
/// malformed payload fail the round trip as SignatureError with no fetch
/// ever attempted.
pub fn on_sign_result(url: &str, raw: Option<String>) -> (r: ExecPhase)
    ensures
        raw is None ==> (r matches ExecPhase::Failed { error } && error
            == TikTokError::SignatureError),
        raw matches Some(s) ==> match xbogus_of(s@) {
            Some(sig) => r matches ExecPhase::Fetching { signed_url } && signed_with(
                signed_url@,
                url@,
                sig,
            ),
            None => r matches ExecPhase::Failed { error } && error == TikTokError::SignatureError,
        },
{
    match parse_signature(raw) {
        Err(e) => ExecPhase::Failed { error: e },
        Ok(sig) => {
            let signed = append_signature(url, sig.as_str());
            ExecPhase::Fetching { signed_url: signed }
        },
    }
}

/// What a top-level status decides: an absent field or the integer zero is
/// success, a present field that is not an integer is a malformed reply,
/// and any other integer is the service refusing the request, its code
/// kept verbatim.
pub open spec fn status_decision(status: Option<Option<i64>>) -> Result<(), TikTokError> {
    match status {
        None => Ok(()),
        Some(inner) => match inner {
            None => Err(TikTokError::InvalidJSON),
            Some(c) => if c == 0 {
                Ok(())
            } else {
                Err(TikTokError::ApiError(c))
            },
        },
    }
}

/// The executable form of status_decision.
pub fn status_to_result(status: Option<Option<i64>>) -> (r: Result<(), TikTokError>)
    ensures
        r == status_decision(status),
{
    match status {
        None => Ok(()),
        Some(inner) => match inner {
            None => Err(TikTokError::InvalidJSON),
            Some(c) => {
                if c == 0 {
                    Ok(())
                } else {
                    Err(TikTokError::ApiError(c))
                }
            },
        },
    }
}

/// Validates one response body, deciding success exactly: empty text is
/// EmptyResponse; non-empty text that is not JSON is InvalidJSON; parsed
/// text succeeds with the parsed document if and only if its top-level
/// status_code is absent or zero, and otherwise fails as status_decision
/// says, an ApiError carrying the code verbatim.
pub fn validate_response(body: &str) -> (r: Result<serde_json::Value, TikTokError>)
    ensures
        body@.len() == 0 ==> r == Err::<serde_json::Value, TikTokError>(TikTokError::EmptyResponse),
        body@.len() > 0 && !parses_as_json(body@) ==> r == Err::<serde_json::Value, TikTokError>(
            TikTokError::InvalidJSON,
        ),
        body@.len() > 0 && parses_as_json(body@) ==> {
            &&& (r is Ok <==> status_decision(top_status_of(body@)) is Ok)
            &&& (status_decision(top_status_of(body@)) matches Err(e) ==> r == Err::<
                serde_json::Value,
                TikTokError,
            >(e))
        },
{
    if body.unicode_len() == 0 {
        return Err(TikTokError::EmptyResponse);
    }
    match parse_with_status(body) {
        None => Err(TikTokError::InvalidJSON),
        Some((v, status)) => match status_to_result(status) {
            Ok(()) => Ok(v),
            Err(e) => Err(e),
        },
    }
}

/// Folds the fetch outcome into the round trip: the evaluator returning no
/// text at all counts as an empty response; otherwise the body is
/// validated as validate_response says, Finished exactly on its success.
pub fn on_fetch_result(body: Option<String>) -> (r: ExecPhase)
    ensures
        body is None ==> (r matches ExecPhase::Failed { error } && error
            == TikTokError::EmptyResponse),
        body matches Some(s) ==> {
            &&& s@.len() == 0 ==> (r matches ExecPhase::Failed { error } && error
                == TikTokError::EmptyResponse)
            &&& s@.len() > 0 && !parses_as_json(s@) ==> (r matches ExecPhase::Failed { error }
                && error == TikTokError::InvalidJSON)
            &&& s@.len() > 0 && parses_as_json(s@) ==> {
                &&& (r is Finished <==> status_decision(top_status_of(s@)) is Ok)
                &&& (status_decision(top_status_of(s@)) matches Err(e) ==> (
                r matches ExecPhase::Failed { error } && error == e))
            }
        },
{
    match body {
        None => ExecPhase::Failed { error: TikTokError::EmptyResponse },
        Some(s) => match validate_response(s.as_str()) {
            Ok(v) => ExecPhase::Finished { body: v },
            Err(e) => ExecPhase::Failed { error: e },
        },
    }
}

} // verus!

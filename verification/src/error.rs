use vstd::prelude::*;

verus! {

/// Every failure the client can surface. Each request either succeeds or
/// ends in exactly one of these; nothing is retried or swallowed inside
/// the library.
#[derive(Debug, Clone, PartialEq, Eq)]
pub enum TikTokError {
    /// The response body was not valid JSON.
    InvalidJSON,
    /// The response body was empty, or the fetch returned no text at all.
    EmptyResponse,
    /// The service answered with a non-zero status code; the code is kept
    /// for the caller's backoff decisions.
    ApiError(i64),
    /// The service demanded a captcha.
    CaptchaRequired,
    /// The requested entity is absent from the response.
    NotFound,
    /// The sound was removed by the service.
    SoundRemoved,
    /// The browser automation layer failed; the message comes from it.
    BrowserError(String),
    /// The in-session signer was unavailable or returned a malformed payload.
    SignatureError,
    /// A plain network request (media download) failed.
    RequestError(String),
    /// A caller-supplied URL could not be parsed.
    InvalidUrl(String),
    /// No session could be launched, so the pool cannot start.
    SessionInitError(String),
    /// No session was free in time, or the wait was cancelled.
    PoolExhausted,
    /// A listing page was missing its item array, or its cursor while more
    /// pages were promised.
    MalformedPage,
    /// Any other failure, described in the message.
    Other(String),
}

} // verus!

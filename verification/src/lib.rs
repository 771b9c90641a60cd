//! Core of a client for an anti-bot-protected web API. Requests cannot be
//! made by a bare HTTP client: each one is executed inside a pooled,
//! stateful browser session and must carry a signature computed by
//! site-owned code running in that session. The three pieces that make the
//! client viable are verified here: the session pool with its balanced
//! checkout/release discipline, the signed-request pipeline that
//! canonicalizes, signs, fetches and validates one round trip, and the
//! cursor pagination engine that assembles bounded collections across
//! round trips. The browser itself, the network, and serde decoding of
//! typed entities live outside, driven by the decisions made here.

pub mod dec;
pub mod error;
pub mod json;
pub mod listing;
pub mod paginate;
pub mod pipeline;
pub mod pool;
pub mod rng;
pub mod types;
pub mod urlq;

use vstd::prelude::*;
use crate::error::TikTokError;

verus! {

/// Raw JSON documents run through the client untouched: the library stores
/// and hands them on, and reads single fields only through the accessors
/// below. The type itself stays opaque.
#[verifier::external_type_specification]
#[verifier::external_body]
pub struct ExValue(serde_json::Value);

/// Whether serde_json accepts the text as a JSON document; a function of
/// the text alone.
pub uninterp spec fn parses_as_json(s: Seq<char>) -> bool;

/// The top-level "status_code" entry of the JSON document the text parses
/// to: None when the field is absent, Some(None) when it is present but
/// not an i64, Some(Some(c)) when it is the integer c. A function of the
/// text alone.
pub uninterp spec fn top_status_of(s: Seq<char>) -> Option<Option<i64>>;

/// The string under "X-Bogus" in the JSON document the text parses to;
/// None when the text is not JSON or carries no such string field. A
/// function of the text alone.
pub uninterp spec fn xbogus_of(s: Seq<char>) -> Option<Seq<char>>;

/// Relies on serde_json::from_str, Value::get and Number::as_i64: parses
/// the text and reads its top-level status code out, as top_status_of
/// names it.
#[verifier::external_body]
pub(crate) fn parse_with_status(s: &str) -> (r: Option<(serde_json::Value, Option<Option<i64>>)>)
    ensures
        r is Some <==> parses_as_json(s@),
        r matches Some(p) ==> p.1 == top_status_of(s@),
{
    let v: serde_json::Value = serde_json::from_str(s).ok()?;
    let status = v.get("status_code").map(|x| x.as_i64());
    Some((v, status))
}

/// Relies on serde_json::from_str, Value::get and Value::as_str: the
/// string under "X-Bogus" in the signer's JSON reply, as xbogus_of names
/// it.
#[verifier::external_body]
pub(crate) fn xbogus_from_reply(s: &str) -> (r: Option<String>)
    ensures
        r matches Some(t) ==> xbogus_of(s@) == Some(t@),
        r is None <==> xbogus_of(s@) is None,
{
    serde_json::from_str::<serde_json::Value>(s)
        .ok()
        .and_then(|v| v.get("X-Bogus").and_then(|b| b.as_str()).map(|x| x.to_string()))
}

/// Relies on serde_json::Value::get: the value under a key of a JSON
/// object, None when the key is absent or the value is not an object.
#[verifier::external_body]
pub(crate) fn json_get<'a>(v: &'a serde_json::Value, key: &str) -> Option<&'a serde_json::Value> {
    v.get(key)
}

/// Relies on serde_json::Value::as_array: the elements of a JSON array,
/// None when the value is not an array.
#[verifier::external_body]
pub(crate) fn json_array_items(v: &serde_json::Value) -> Option<Vec<serde_json::Value>> {
    v.as_array().map(|a| a.to_vec())
}

/// Relies on serde_json::Value::as_bool: the value of a JSON boolean,
/// None for any other kind of value.
#[verifier::external_body]
pub(crate) fn json_as_bool(v: &serde_json::Value) -> Option<bool> {
    v.as_bool()
}

/// Relies on serde_json::Value::as_i64: the value of a JSON integer when
/// it fits in an i64, None otherwise.
#[verifier::external_body]
pub(crate) fn json_as_i64(v: &serde_json::Value) -> Option<i64> {
    v.as_i64()
}

/// Relies on serde_json::Value::as_str: the text of a JSON string, None
/// for any other kind of value.
#[verifier::external_body]
pub(crate) fn json_as_string(v: &serde_json::Value) -> Option<String> {
    v.as_str().map(|s| s.to_string())
}

/// Relies on serde_json::Value::is_null.
#[verifier::external_body]
pub(crate) fn json_is_null(v: &serde_json::Value) -> bool {
    v.is_null()
}

/// Relies on serde_json::Value's derived Clone, which copies the document.
#[verifier::external_body]
pub(crate) fn json_clone(v: &serde_json::Value) -> (r: serde_json::Value)
    ensures
        r == *v,
{
    v.clone()
}

/// The sub-document a single-entity lookup decodes, found under the given
/// key of the response. An absent or null entry means the entity does not
/// exist on the service.
pub fn required_field(v: &serde_json::Value, key: &str) -> (r: Result<
    serde_json::Value,
    TikTokError,
>)
    ensures
        r is Ok || r == Err::<serde_json::Value, TikTokError>(TikTokError::NotFound),
{
    match json_get(v, key) {
        Some(inner) => {
            if json_is_null(inner) {
                Err(TikTokError::NotFound)
            } else {
                Ok(json_clone(inner))
            }
        },
        None => Err(TikTokError::NotFound),
    }
}

} // verus!

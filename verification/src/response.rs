//! Reading the remote services' JSON answers.
//!
//! Both hosting platforms and the summarizer answer with JSON documents.
//! The transport hands such a document over as one opaque value; all this
//! library ever reads from it is a named string field, through one trusted
//! accessor, and every decision on what was found is made here, verified.

use vstd::prelude::*;
use crate::error::ShipItError;

verus! {

#[verifier::external_type_specification]
#[verifier::external_body]
pub struct ExValue(serde_json::Value);

/// The string-valued fields of a JSON document: for an object, each key that
/// holds a string, mapped to that string.
pub uninterp spec fn json_str_fields(v: serde_json::Value) -> Map<Seq<char>, Seq<char>>;

/// Relies on serde_json::Value::get and serde_json::Value::as_str: on an
/// object with a string under `key`, `get` finds that member and `as_str`
/// yields its text; on any other document or member shape one of the two
/// answers `None`.
#[verifier::external_body]
fn json_string_field(v: &serde_json::Value, key: &str) -> (r: Option<String>)
    ensures
        r matches Some(s) ==> json_str_fields(*v).contains_key(key@) && s@ == json_str_fields(
            *v,
        )[key@],
        r is None ==> !json_str_fields(*v).contains_key(key@),
{
    match v.get(key) {
        Some(inner) => inner.as_str().map(|s| s.to_string()),
        None => None,
    }
}

/// Reads the created request's address out of a platform's answer: the
/// `web_url` member. An answer without one is a platform failure.
pub fn response_web_url(v: &serde_json::Value) -> (r: Result<String, ShipItError>)
    ensures
        json_str_fields(*v).contains_key("web_url"@) ==> (r matches Ok(u) && u@ == json_str_fields(
            *v,
        )["web_url"@]),
        !json_str_fields(*v).contains_key("web_url"@) ==> r == Err::<String, ShipItError>(
            ShipItError::PlatformAPIError,
        ),
{
    match json_string_field(v, "web_url") {
        Some(u) => Ok(u),
        None => Err(ShipItError::PlatformAPIError),
    }
}

/// Reads the generated text out of the summarizer's answer: the `response`
/// member. An answer without one does not parse as a summary.
pub fn response_summary(v: &serde_json::Value) -> (r: Result<String, ShipItError>)
    ensures
        json_str_fields(*v).contains_key("response"@) ==> (r matches Ok(s) && s@ == json_str_fields(
            *v,
        )["response"@]),
        !json_str_fields(*v).contains_key("response"@) ==> r == Err::<String, ShipItError>(
            ShipItError::SummarizationParseError,
        ),
{
    match json_string_field(v, "response") {
        Some(s) => Ok(s),
        None => Err(ShipItError::SummarizationParseError),
    }
}

} // verus!

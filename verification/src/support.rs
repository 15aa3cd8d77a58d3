//! The calls this library makes into uuid, chrono and serde_json.
//!
//! Each function here is trusted: its contract is taken as given, not
//! proved. Its doc comment names the outside function and what the contract
//! claims of it.

use vstd::prelude::*;

verus! {

/// The RFC 3339 text (`DateTime::<Utc>::to_rfc3339`) of the instant `ms`
/// milliseconds after the Unix epoch, or `None` where chrono cannot hold it.
pub uninterp spec fn rfc3339_text(ms: i64) -> Option<Seq<char>>;

/// The JSON text that `serde_json::to_string` gives for a list of strings.
pub uninterp spec fn json_string_list_text(items: Seq<Seq<char>>) -> Seq<char>;

/// The JSON text of an object with two fields whose values are strings or
/// `null`, as `serde_json::Value::to_string` writes it.
pub uninterp spec fn json_pair_text(
    k1: Seq<char>,
    v1: Option<Seq<char>>,
    k2: Seq<char>,
    v2: Option<Seq<char>>,
) -> Seq<char>;

/// The `path` fields of the `files` array of a JSON text: `None` when the
/// text is not JSON or has no `files` array; else, per element in order,
/// its `path` when that is a string.
pub uninterp spec fn json_files_paths_text(json: Seq<char>) -> Option<Seq<Option<Seq<char>>>>;

/// A fresh record identifier: `uuid::Uuid::new_v4().to_string()`. The uuid
/// documentation gives the hyphenated form, 36 characters long; which
/// identifier comes back is chance, so nothing more is stated.
#[verifier::external_body]
pub(crate) fn new_record_id() -> (id: String)
    ensures
        id@.len() == 36,
{
    uuid::Uuid::new_v4().to_string()
}

/// The current time as RFC 3339 text: `chrono::Utc::now().to_rfc3339()`.
/// It depends on the clock, so nothing is stated of it.
#[verifier::external_body]
pub(crate) fn now_rfc3339() -> (t: String) {
    chrono::Utc::now().to_rfc3339()
}

/// `chrono::DateTime::from_timestamp_millis(ms)` written with `to_rfc3339`;
/// the result is the named text [`rfc3339_text`] of `ms`.
#[verifier::external_body]
pub(crate) fn rfc3339_from_millis(ms: i64) -> (t: Option<String>)
    ensures
        match t {
            Some(s) => rfc3339_text(ms) == Some(s@),
            None => rfc3339_text(ms) is None,
        },
{
    chrono::DateTime::from_timestamp_millis(ms).map(|d| d.to_rfc3339())
}

/// `serde_json::to_string` of a list of strings (which cannot fail); the
/// result is the named text [`json_string_list_text`] of the items.
#[verifier::external_body]
pub(crate) fn json_string_list(items: &Vec<String>) -> (t: String)
    ensures
        t@ == json_string_list_text(items.deep_view()),
{
    serde_json::to_string(items).unwrap_or_default()
}

/// The text of the JSON object `{k1: v1, k2: v2}` built with
/// `serde_json::Map` and written with `Value::to_string`, each value a
/// string or `null`; the result is the named text [`json_pair_text`].
#[verifier::external_body]
pub(crate) fn json_pair(k1: &str, v1: Option<&str>, k2: &str, v2: Option<&str>) -> (t: String)
    ensures
        t@ == json_pair_text(
            k1@,
            match v1 {
                Some(s) => Some(s@),
                None => None,
            },
            k2@,
            match v2 {
                Some(s) => Some(s@),
                None => None,
            },
        ),
{
    let mut m = serde_json::Map::new();
    m.insert(k1.to_string(), serde_json::Value::from(v1));
    m.insert(k2.to_string(), serde_json::Value::from(v2));
    serde_json::Value::Object(m).to_string()
}

/// `serde_json::from_str::<serde_json::Value>`, then `Value::get("files")`
/// and `as_array`, and for each element `get("path")` and `as_str`; the
/// result is the named [`json_files_paths_text`] of the text.
#[verifier::external_body]
pub(crate) fn json_files_paths(json: &str) -> (r: Option<Vec<Option<String>>>)
    ensures
        r.deep_view() == json_files_paths_text(json@),
{
    let value: serde_json::Value = serde_json::from_str(json).ok()?;
    let files = value.get("files")?.as_array()?;
    Some(files.iter().map(|f| f.get("path").and_then(|p| p.as_str()).map(String::from)).collect())
}

} // verus!

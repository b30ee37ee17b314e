use vstd::prelude::*;

use crate::error::GuardError;
use crate::version::{normalize_version, normalized};

verus! {

/// The string stored under `key` at the top level of the JSON object
/// `body`; `None` when `body` is not JSON, not an object, lacks the key, or
/// holds something other than a string there.
pub uninterp spec fn json_str_field(body: Seq<char>, key: Seq<char>) -> Option<Seq<char>>;

/// The view of an optional string.
pub open spec fn opt_string_view(o: Option<String>) -> Option<Seq<char>> {
    match o {
        Some(s) => Some(s@),
        None => None,
    }
}

/// Relies on serde_json: `from_str` parses `body` into a `Value`, and
/// `Value::get` with `Value::as_str` read the top-level string field `key`.
/// The result depends on the two texts alone.
#[verifier::external_body]
fn json_string_field(body: &str, key: &str) -> (r: Option<String>)
    ensures
        opt_string_view(r) == json_str_field(body@, key@),
{
    let value: serde_json::Value = match serde_json::from_str(body) {
        Ok(v) => v,
        Err(_) => return None,
    };
    match value.get(key) {
        Some(field) => field.as_str().map(String::from),
        None => None,
    }
}

/// The latest published version from the release-metadata document: its
/// `tag_name` without the leading `v`. Fails with `UpdateCheckFailed` when
/// the document has no such string field.
pub fn latest_version_from_json(body: &str) -> (r: Result<String, GuardError>)
    ensures
        match json_str_field(body@, "tag_name"@) {
            Some(tag) => r matches Ok(v) && v@ == normalized(tag),
            None => r == Err::<String, GuardError>(GuardError::UpdateCheckFailed),
        },
{
    match json_string_field(body, "tag_name") {
        Some(tag) => latest_version_from_tag(Some(tag.as_str())),
        None => latest_version_from_tag(None),
    }
}

/// The latest version from a tag already read out of the metadata.
pub fn latest_version_from_tag(tag: Option<&str>) -> (r: Result<String, GuardError>)
    ensures
        match tag {
            Some(t) => r matches Ok(v) && v@ == normalized(t@),
            None => r == Err::<String, GuardError>(GuardError::UpdateCheckFailed),
        },
{
    match tag {
        Some(t) => Ok(normalize_version(t)),
        None => Err(GuardError::UpdateCheckFailed),
    }
}

} // verus!

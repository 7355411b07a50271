//! JSON values that pass through, and the one thing that is read out of a body.

use vstd::prelude::*;

verus! {

/// A JSON value, carried without looking into it.
#[verifier::external_type_specification]
#[verifier::external_body]
pub struct ExValue(serde_json::Value);

/// `serde_json::Value`'s derived `clone` copies the value as it is.
pub assume_specification[ <serde_json::Value as std::clone::Clone>::clone ](
    value: &serde_json::Value,
) -> (copy: serde_json::Value)
    ensures
        copy == *value,
;

/// The text that a JSON object holds under a key: `None` where the body is not
/// JSON, is not an object, lacks the key or holds something else there.
pub uninterp spec fn json_text_field(body: Seq<char>, key: Seq<char>) -> Option<Seq<char>>;

/// Reads `body` with `serde_json::from_str` as a `serde_json::Value`, and takes
/// what `Value::get` finds under `key` where `Value::as_str` says it is a text.
#[verifier::external_body]
pub(crate) fn read_text_field(body: &str, key: &str) -> (text: Option<String>)
    ensures
        match text {
            Some(text) => json_text_field(body@, key@) == Some(text@),
            None => json_text_field(body@, key@) is None,
        },
{
    let value: serde_json::Value = serde_json::from_str(body).ok()?;
    value.get(key)?.as_str().map(String::from)
}

} // verus!

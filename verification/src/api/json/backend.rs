//! What the library takes from `serde_json`, and what it believes of it.
//!
//! Nothing here is proved. Each contract only gives the result of the call a
//! name, for the contracts of the verified code to speak of.

use vstd::prelude::*;

verus! {

/// `serde_json::Value`, a parsed JSON document. Nothing of its inside is
/// visible to the verifier: it is read through [`json_member`] and
/// [`json_string_value`] only.
#[verifier::external_type_specification]
#[verifier::external_body]
pub struct ExValue(serde_json::Value);

/// What `serde_json::to_string` makes of the string `s`: the JSON string
/// literal for it, quotes included, or the text of the error it reports.
pub uninterp spec fn json_string_encoding(s: Seq<char>) -> Result<Seq<char>, Seq<char>>;

/// What `serde_json::from_str` makes of `text` when asked for a
/// `serde_json::Value`: the document, or the text of the error it reports.
pub uninterp spec fn json_document(text: Seq<char>) -> Result<serde_json::Value, Seq<char>>;

/// What `serde_json::Value::get` finds in `value` under the string `key`: the
/// member of that name where `value` is an object that has one.
pub uninterp spec fn json_member(value: serde_json::Value, key: Seq<char>) -> Option<
    serde_json::Value,
>;

/// What `serde_json::Value::as_str` finds in `value`: the text where `value`
/// is a JSON string.
pub uninterp spec fn json_string_value(value: serde_json::Value) -> Option<Seq<char>>;

/// Calls `serde_json::to_string` on a string and hands an error back as the
/// text it displays. The contract only names the result as
/// [`json_string_encoding`] of the argument.
#[verifier::external_body]
pub(crate) fn to_json_string(s: &str) -> (r: Result<String, String>)
    ensures
        match r {
            Ok(text) => json_string_encoding(s@) == Ok::<Seq<char>, Seq<char>>(text@),
            Err(reason) => json_string_encoding(s@) == Err::<Seq<char>, Seq<char>>(reason@),
        },
{
    serde_json::to_string(s).map_err(|error| error.to_string())
}

/// Calls `serde_json::from_str` for a `serde_json::Value` and hands an error
/// back as the text it displays. The contract only names the result as
/// [`json_document`] of the argument.
#[verifier::external_body]
pub(crate) fn from_json_text(text: &str) -> (r: Result<serde_json::Value, String>)
    ensures
        match r {
            Ok(document) => json_document(text@) == Ok::<serde_json::Value, Seq<char>>(document),
            Err(reason) => json_document(text@) == Err::<serde_json::Value, Seq<char>>(reason@),
        },
{
    serde_json::from_str::<serde_json::Value>(text).map_err(|error| error.to_string())
}

/// Calls `serde_json::Value::get` with a string key. The contract only names
/// the result as [`json_member`] of the arguments.
#[verifier::external_body]
pub(crate) fn get_member<'v>(value: &'v serde_json::Value, key: &str) -> (r: Option<
    &'v serde_json::Value,
>)
    ensures
        match r {
            Some(member) => json_member(*value, key@) == Some(*member),
            None => json_member(*value, key@) is None,
        },
{
    value.get(key)
}

/// Calls `serde_json::Value::as_str`. The contract only names the result as
/// [`json_string_value`] of the argument.
#[verifier::external_body]
pub(crate) fn get_str<'v>(value: &'v serde_json::Value) -> (r: Option<&'v str>)
    ensures
        match r {
            Some(text) => json_string_value(*value) == Some(text@),
            None => json_string_value(*value) is None,
        },
{
    value.as_str()
}

} // verus!

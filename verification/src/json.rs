//! JSON documents, read by `serde_json`. A document is opaque here: what the
//! library knows of one it asks through the functions of this file, and
//! each answer has a name that the contracts speak of.

use vstd::prelude::*;
use crate::error::DecodeCategory;

verus! {

/// `serde_json::Value`: a JSON document, or a part of one.
#[verifier::external_type_specification]
#[verifier::external_body]
pub struct ExValue(serde_json::Value);

/// `serde_json::Error`: why a text is not the JSON that was asked for.
#[verifier::external_type_specification]
#[verifier::external_body]
pub struct ExError(serde_json::Error);

/// What `serde_json::from_str` makes of a text.
pub uninterp spec fn json_document(text: Seq<char>) -> Result<serde_json::Value, serde_json::Error>;

/// What `serde_json::Error::classify` says of an error.
pub uninterp spec fn error_category(error: serde_json::Error) -> DecodeCategory;

/// What `serde_json::Value::get` finds under a key.
pub uninterp spec fn json_member(value: serde_json::Value, key: Seq<char>) -> Option<
    serde_json::Value,
>;

/// What `serde_json::Value::as_array` finds: the elements, in their order.
pub uninterp spec fn json_elements(value: serde_json::Value) -> Option<Seq<serde_json::Value>>;

/// The bits of what `serde_json::Value::as_f64` finds.
pub uninterp spec fn json_number(value: serde_json::Value) -> Option<u64>;

/// `serde_json::from_str` for a `Value`: the same text gives the same
/// document or the same error. Nothing is said of which texts are JSON.
#[verifier::external_body]
pub(crate) fn parse_document(text: &str) -> (parsed: Result<serde_json::Value, serde_json::Error>)
    ensures
        parsed == json_document(text@),
{
    serde_json::from_str::<serde_json::Value>(text)
}

/// `serde_json::Error::classify`, its four categories told apart.
#[verifier::external_body]
pub(crate) fn classify(error: &serde_json::Error) -> (category: DecodeCategory)
    ensures
        category == error_category(*error),
{
    match error.classify() {
        serde_json::error::Category::Io => DecodeCategory::Io,
        serde_json::error::Category::Syntax => DecodeCategory::Syntax,
        serde_json::error::Category::Data => DecodeCategory::Data,
        serde_json::error::Category::Eof => DecodeCategory::Eof,
    }
}

/// `serde_json::Value::get` with a string key: the member of an object
/// under that key, and nothing for a missing key or another kind of value.
#[verifier::external_body]
pub(crate) fn member<'a>(value: &'a serde_json::Value, key: &str) -> (found: Option<
    &'a serde_json::Value,
>)
    ensures
        match found {
            Some(inner) => json_member(*value, key@) == Some(*inner),
            None => json_member(*value, key@) is None,
        },
{
    value.get(key)
}

/// `serde_json::Value::as_array`: the elements of an array, and nothing for
/// another kind of value.
#[verifier::external_body]
pub(crate) fn elements(value: &serde_json::Value) -> (found: Option<&Vec<serde_json::Value>>)
    ensures
        match found {
            Some(items) => json_elements(*value) == Some(items@),
            None => json_elements(*value) is None,
        },
{
    value.as_array()
}

/// `serde_json::Value::as_f64`, handed on as the bit pattern: the binary64
/// of a number, and nothing for another kind of value.
#[verifier::external_body]
pub(crate) fn number_bits(value: &serde_json::Value) -> (found: Option<u64>)
    ensures
        found == json_number(*value),
{
    value.as_f64().map(|number| number.to_bits())
}

} // verus!

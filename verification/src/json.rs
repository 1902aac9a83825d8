//! The calls into `serde_json`, each behind a contract that is believed and
//! not proved.

use vstd::prelude::*;

verus! {

#[verifier::external_type_specification]
#[verifier::external_body]
pub struct ExJsonValue(serde_json::Value);

#[verifier::external_type_specification]
#[verifier::external_body]
pub struct ExJsonError(serde_json::Error);

/// The bytes that `serde_json::from_value::<Vec<u8>>` reads out of a JSON
/// value, or `None` where it reports an error. It depends on the value alone.
pub uninterp spec fn json_byte_array(value: serde_json::Value) -> Option<Seq<u8>>;

/// The JSON text that `serde_json::to_string` writes for a string.
pub uninterp spec fn json_string_literal(text: Seq<char>) -> Seq<char>;

/// Calls `serde_json::from_value::<Vec<u8>>` on a copy of `value`.
///
/// Believed: the call succeeds exactly where `json_byte_array` is `Some`, and
/// then returns those bytes.
#[verifier::external_body]
pub(crate) fn decode_byte_array(value: &serde_json::Value) -> (r: Result<
    Vec<u8>,
    serde_json::Error,
>)
    ensures
        r is Ok <==> json_byte_array(*value) is Some,
        r matches Ok(bytes) ==> Some(bytes@) == json_byte_array(*value),
{
    serde_json::from_value::<Vec<u8>>(value.clone())
}

/// Formats a `serde_json::Error` through its `Display` impl. Nothing is
/// claimed of the text.
#[verifier::external_body]
pub(crate) fn decode_error_text(error: &serde_json::Error) -> (r: String) {
    format!("{}", error)
}

/// Calls `serde_json::to_string` on a string.
///
/// Believed: the call succeeds, and its text is `json_string_literal` of the
/// input. `serde_json` names two ways for the call to fail, a `Serialize`
/// impl that fails and a map whose keys are not strings; a string is written
/// to memory through neither.
#[verifier::external_body]
pub(crate) fn encode_json_string(text: &str) -> (r: Result<String, serde_json::Error>)
    ensures
        r is Ok,
        r matches Ok(literal) ==> literal@ == json_string_literal(text@),
{
    serde_json::to_string(text)
}

} // verus!

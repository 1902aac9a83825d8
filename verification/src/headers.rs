//! The calls into `http`'s header map, behind a contract that is believed and
//! not proved.

use vstd::prelude::*;

verus! {

#[verifier::external_type_specification]
#[verifier::external_body]
pub struct ExHeaderValue(http::HeaderValue);

#[verifier::external_type_specification]
#[verifier::external_body]
#[verifier::reject_recursive_types(T)]
pub struct ExHeaderMap<T>(http::HeaderMap<T>);

/// The bytes of the value that `HeaderMap::get` finds under a name: those of
/// the first value stored under it, or `None` where the map holds none or the
/// name is no header name. It depends on the map's entries and the name alone.
pub uninterp spec fn header_lookup(
    headers: http::HeaderMap<http::HeaderValue>,
    name: Seq<char>,
) -> Option<Seq<u8>>;

/// Calls `HeaderMap::get` with the name as a string, and copies the bytes of
/// the value found (`HeaderValue::as_bytes`).
///
/// Believed: the result is `header_lookup` of the map and the name.
#[verifier::external_body]
pub(crate) fn header_bytes(headers: &http::HeaderMap<http::HeaderValue>, name: &str) -> (r: Option<
    Vec<u8>,
>)
    ensures
        r is Some <==> header_lookup(*headers, name@) is Some,
        r matches Some(bytes) ==> Some(bytes@) == header_lookup(*headers, name@),
{
    headers.get(name).map(|value| value.as_bytes().to_vec())
}

} // verus!

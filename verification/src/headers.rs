//! Reading the media type out of a response's header map.

use reqwest::header::{HeaderMap, HeaderValue, CONTENT_TYPE};
use vstd::prelude::*;

verus! {

/// The header map of the `http` crate, as `reqwest` hands it out. Nothing of
/// its inside is known to the verifier; [`header_values`] stands for what it
/// holds.
#[verifier::external_type_specification]
#[verifier::external_body]
#[verifier::reject_recursive_types(T)]
pub struct ExHeaderMap<T>(HeaderMap<T>);

/// The header value of the `http` crate: the type of the values in a header
/// map. Nothing of its inside is known to the verifier.
#[verifier::external_type_specification]
#[verifier::external_body]
pub struct ExHeaderValue(HeaderValue);

/// What a header map holds: for each header name that has a value, written in
/// lower case, the bytes of its values in the order they were added.
pub uninterp spec fn header_values(headers: HeaderMap) -> Map<Seq<char>, Seq<Seq<u8>>>;

/// The value that counts as a response's media type: the first one stored
/// under `content-type`, if there is any.
pub open spec fn content_type_in(values: Map<Seq<char>, Seq<Seq<u8>>>) -> Option<Seq<u8>> {
    if values.dom().contains("content-type"@) && values["content-type"@].len() > 0 {
        Some(values["content-type"@][0])
    } else {
        None
    }
}

/// Calls `HeaderMap::get` with the name `CONTENT_TYPE` and copies out what
/// `HeaderValue::as_bytes` gives for the value found. The contract claims that
/// `get` finds the first value stored under `content-type`, and nothing when
/// the map holds no value under that name.
#[verifier::external_body]
pub(crate) fn first_content_type(headers: &HeaderMap) -> (value: Option<Vec<u8>>)
    ensures
        match value {
            Some(bytes) => content_type_in(header_values(*headers)) == Some(bytes@),
            None => content_type_in(header_values(*headers)) is None,
        },
{
    match headers.get(CONTENT_TYPE) {
        Some(found) => Some(found.as_bytes().to_vec()),
        None => None,
    }
}

} // verus!

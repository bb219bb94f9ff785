//! The header map of a request, as the `http` crate holds it, and what the
//! adaptor reads from it.

use vstd::prelude::*;
use vstd::utf8::*;

verus! {

/// `http::HeaderMap`, a multimap from header names to values.
#[verifier::external_type_specification]
#[verifier::external_body]
#[verifier::reject_recursive_types(T)]
pub struct ExHeaderMap<T>(http::HeaderMap<T>);

/// `http::HeaderValue`, the bytes of one header value.
#[verifier::external_type_specification]
#[verifier::external_body]
pub struct ExHeaderValue(http::HeaderValue);

/// The bytes of a header value.
pub uninterp spec fn value_bytes(value: http::HeaderValue) -> Seq<u8>;

/// What a header map holds: for each header name present, in lower case, the
/// bytes of its values, first stored first.
pub uninterp spec fn header_values(map: http::HeaderMap<http::HeaderValue>) -> Map<
    Seq<char>,
    Seq<Seq<u8>>,
>;

/// The name under which the `Host` header is stored.
pub open spec fn host_name() -> Seq<char> {
    seq!['h', 'o', 's', 't']
}

/// Looks the `Host` header up with `http::HeaderMap::get`.
///
/// Trusted: `get` finds a value exactly when the name is present, and then
/// hands out the first value stored under it.
#[verifier::external_body]
fn get_host(map: &http::HeaderMap<http::HeaderValue>) -> (found: Option<&http::HeaderValue>)
    ensures
        found is Some <==> header_values(*map).contains_key(host_name()),
        found matches Some(value) ==> header_values(*map)[host_name()].len() > 0 && value_bytes(
            *value,
        ) == header_values(*map)[host_name()][0],
{
    map.get(http::header::HOST)
}

/// Reads the bytes of a header value, as `http::HeaderValue::as_bytes` hands
/// them out, as text with `core::str::from_utf8`.
///
/// Trusted: `from_utf8` succeeds exactly when the bytes are valid UTF-8, and
/// then yields the text that they encode.
#[verifier::external_body]
fn value_text(value: &http::HeaderValue) -> (text: Option<&str>)
    ensures
        text is Some <==> valid_utf8(value_bytes(*value)),
        text matches Some(s) ==> s@ == decode_utf8(value_bytes(*value)),
{
    core::str::from_utf8(value.as_bytes()).ok()
}

/// The host a header map names: the text of the first `Host` value where the
/// header is present and that value is valid UTF-8, and the empty string
/// otherwise.
pub open spec fn host_of(values: Map<Seq<char>, Seq<Seq<u8>>>) -> Seq<char> {
    if values.contains_key(host_name()) && valid_utf8(values[host_name()][0]) {
        decode_utf8(values[host_name()][0])
    } else {
        Seq::empty()
    }
}

/// The value of the `Host` header, or the empty string where the header is
/// absent or is not valid UTF-8.
pub fn host_in(map: &http::HeaderMap<http::HeaderValue>) -> (host: &str)
    ensures
        host@ == host_of(header_values(*map)),
{
    proof {
        reveal_strlit("");
    }
    match get_host(map) {
        Some(value) => match value_text(value) {
            Some(text) => text,
            None => "",
        },
        None => "",
    }
}

} // verus!
